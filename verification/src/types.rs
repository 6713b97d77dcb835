//! Plain descriptions of what the PulseAudio server reports about itself, its devices and
//! the streams of its client applications.

use vstd::prelude::*;

verus! {

/// The volume of each channel of a device or a stream, in PulseAudio's volume units
/// (`0x10000` is the normal, 100% volume).
#[derive(Debug, Clone, PartialEq, Eq)]
pub struct ChannelVolumes {
    pub values: Vec<u32>,
}

/// A port of a device (a jack, a speaker, ...).
#[derive(Debug, Clone, PartialEq, Eq)]
pub struct DevicePortInfo {
    pub name: Option<String>,
    pub description: Option<String>,
    pub priority: u32,
}

/// A sink (a playback device) or a source (a recording device).
#[derive(Debug, Clone, PartialEq, Eq)]
pub struct DeviceInfo {
    pub index: u32,
    pub name: Option<String>,
    pub description: Option<String>,
    pub owner_module: Option<u32>,
    pub volume: ChannelVolumes,
    pub mute: bool,
    pub monitor: Option<u32>,
    pub monitor_name: Option<String>,
    pub driver: Option<String>,
    pub card: Option<u32>,
    pub ports: Vec<DevicePortInfo>,
    pub active_port: Option<DevicePortInfo>,
}

/// A stream of a client application: a sink input (playback) or a source output (recording).
#[derive(Debug, Clone, PartialEq, Eq)]
pub struct ApplicationInfo {
    pub index: u32,
    pub name: Option<String>,
    pub owner_module: Option<u32>,
    pub client: Option<u32>,
    /// The index of the device the stream is connected to.
    pub connection_id: u32,
    pub volume: ChannelVolumes,
    pub mute: bool,
    pub corked: bool,
    pub has_volume: bool,
    pub volume_writable: bool,
    pub driver: Option<String>,
}

/// What the server says about itself.
#[derive(Debug, Clone, PartialEq, Eq)]
pub struct ServerInfo {
    pub user_name: Option<String>,
    pub host_name: Option<String>,
    pub server_version: Option<String>,
    pub server_name: Option<String>,
    pub default_sink_name: Option<String>,
    pub default_source_name: Option<String>,
    pub cookie: u32,
}

} // verus!
