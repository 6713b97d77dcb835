//! Controllers for the playback and recording side of a PulseAudio server: the decisions
//! they make on what the server reports.

pub mod controllers;
pub mod error;
pub mod laws;
pub mod reports;
pub mod types;
pub mod waiting;

pub use controllers::{SinkController, SourceController};
pub use error::{ControllerError, PulseCtlError, PulseCtlErrorType};
pub use reports::ListEntry;
pub use types::{ApplicationInfo, ChannelVolumes, DeviceInfo, DevicePortInfo, ServerInfo};
