//! Waiting on the server: the main loop is iterated until the connection is ready or the
//! operation is done. Each round hands over what the iteration returned and the state that
//! was reached; the decision whether to go on, to stop, or to give up is taken here.

use vstd::prelude::*;
use crate::error::{PulseCtlError, PulseCtlErrorType};

verus! {

/// What one iteration of the main loop returned.
#[derive(Debug, Clone, PartialEq, Eq)]
pub enum LoopIteration {
    /// Events were dispatched.
    Dispatched,
    /// The loop was asked to quit.
    Quit,
    /// The loop failed, with the server library's description of the failure.
    Failed(String),
}

/// The state of an operation sent to the server.
#[derive(Debug, Clone, Copy, PartialEq, Eq)]
pub enum OperationState {
    Running,
    Done,
    Cancelled,
}

/// The state of the connection to the server.
#[derive(Debug, Clone, Copy, PartialEq, Eq)]
pub enum ContextState {
    Unconnected,
    Connecting,
    Authorizing,
    SettingName,
    Ready,
    Failed,
    Terminated,
}

/// What to do after a round of waiting.
#[derive(Debug, Clone, PartialEq, Eq)]
pub enum WaitStep {
    /// Iterate the main loop again.
    Continue,
    /// The wait is over: the operation is done, or the connection is ready.
    Finished,
    /// The wait is over, with this failure.
    Failed(PulseCtlError),
}

/// The text of the failure when the main loop quits while waiting.
pub const ITERATE_QUIT: &'static str = "Iterate state quit without an error";

/// The text of the failure when the operation is cancelled.
pub const OPERATION_CANCELLED: &'static str = "Operation cancelled without an error";

/// The text of the failure when the connection fails or ends while connecting.
pub const CONTEXT_FAILED: &'static str = "Context state failed/terminated without an error";

/// `step` is a failure of kind `kind` with the text `msg`.
pub open spec fn fails_with(step: WaitStep, kind: PulseCtlErrorType, msg: Seq<char>) -> bool {
    step matches WaitStep::Failed(e) && e.error == kind && e.message@ == msg
}

fn failure(kind: PulseCtlErrorType, msg: &str) -> (step: WaitStep)
    ensures
        fails_with(step, kind, msg@),
{
    WaitStep::Failed(PulseCtlError { error: kind, message: msg.to_owned() })
}

/// The decision after a round of waiting for an operation: a failed loop gives up with the
/// loop's failure, a loop that quit gives up, and otherwise the operation's state decides.
pub fn operation_step(iteration: LoopIteration, state: OperationState) -> (step: WaitStep)
    ensures
        iteration matches LoopIteration::Failed(m) ==> fails_with(step, PulseCtlErrorType::PulseAudioError, m@),
        iteration is Quit ==> fails_with(step, PulseCtlErrorType::OperationError, ITERATE_QUIT@),
        iteration is Dispatched ==> match state {
            OperationState::Running => step == WaitStep::Continue,
            OperationState::Done => step == WaitStep::Finished,
            OperationState::Cancelled => fails_with(step, PulseCtlErrorType::OperationError, OPERATION_CANCELLED@),
        },
        (step == WaitStep::Continue) <==> (iteration is Dispatched && state == OperationState::Running),
{
    match iteration {
        LoopIteration::Failed(m) => WaitStep::Failed(
            PulseCtlError { error: PulseCtlErrorType::PulseAudioError, message: m },
        ),
        LoopIteration::Quit => failure(PulseCtlErrorType::OperationError, ITERATE_QUIT),
        LoopIteration::Dispatched => match state {
            OperationState::Running => WaitStep::Continue,
            OperationState::Done => WaitStep::Finished,
            OperationState::Cancelled => failure(PulseCtlErrorType::OperationError, OPERATION_CANCELLED),
        },
    }
}

/// The decision after a round of waiting for the connection: a failed loop gives up with the
/// loop's failure, a loop that quit gives up, and otherwise the connection's state decides.
pub fn connect_step(iteration: LoopIteration, state: ContextState) -> (step: WaitStep)
    ensures
        iteration matches LoopIteration::Failed(m) ==> fails_with(step, PulseCtlErrorType::PulseAudioError, m@),
        iteration is Quit ==> fails_with(step, PulseCtlErrorType::ConnectError, ITERATE_QUIT@),
        iteration is Dispatched ==> match state {
            ContextState::Ready => step == WaitStep::Finished,
            ContextState::Failed | ContextState::Terminated => fails_with(step, PulseCtlErrorType::ConnectError, CONTEXT_FAILED@),
            _ => step == WaitStep::Continue,
        },
        (step == WaitStep::Continue) <==> (iteration is Dispatched && state != ContextState::Ready
            && state != ContextState::Failed && state != ContextState::Terminated),
{
    match iteration {
        LoopIteration::Failed(m) => WaitStep::Failed(
            PulseCtlError { error: PulseCtlErrorType::PulseAudioError, message: m },
        ),
        LoopIteration::Quit => failure(PulseCtlErrorType::ConnectError, ITERATE_QUIT),
        LoopIteration::Dispatched => match state {
            ContextState::Ready => WaitStep::Finished,
            ContextState::Failed | ContextState::Terminated => failure(PulseCtlErrorType::ConnectError, CONTEXT_FAILED),
            _ => WaitStep::Continue,
        },
    }
}

} // verus!
