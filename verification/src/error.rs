//! Errors that the controllers report.

use vstd::prelude::*;

verus! {

/// The kind of failure met while talking to the PulseAudio server.
#[derive(Debug, Clone, PartialEq, Eq)]
pub enum PulseCtlErrorType {
    ConnectError,
    OperationError,
    PulseAudioError,
}

/// A failure of the connection or of the main loop while an operation ran.
#[derive(Debug, Clone, PartialEq, Eq)]
pub struct PulseCtlError {
    pub error: PulseCtlErrorType,
    pub message: String,
}

/// What a controller operation can fail with.
#[derive(Debug, Clone, PartialEq, Eq)]
pub enum ControllerError {
    /// The connection or the main loop failed.
    PulseCtl(PulseCtlError),
    /// The server answered without the information that was asked for.
    GetInfo(String),
}

/// `r` is a `GetInfo` error that carries the text `msg`.
pub open spec fn is_get_info<T>(r: Result<T, ControllerError>, msg: Seq<char>) -> bool {
    r matches Err(ControllerError::GetInfo(m)) && m@ == msg
}

/// Builds the `GetInfo` error that carries the text `msg`.
pub fn get_info_error(msg: &str) -> (e: ControllerError)
    ensures
        e matches ControllerError::GetInfo(m) && m@ == msg@,
{
    ControllerError::GetInfo(msg.to_owned())
}

} // verus!
