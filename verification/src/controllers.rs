//! The two controllers. A controller operation asks the server for something, waits until the
//! server has answered, and decides its result from what the server handed to the
//! operation's callback (in the order of the calls) and from how the wait ended. The asking
//! and the waiting are done by the caller; the deciding is done here.

use vstd::prelude::*;
use crate::error::{ControllerError, PulseCtlError};
use crate::reports::{
    collect_items, finish_flag, finish_list, finish_lookup, flag_outcome, last_reported,
    list_outcome, lookup_outcome, reported_items, take_last, ListEntry,
};
use crate::types::{ApplicationInfo, ChannelVolumes, DeviceInfo, ServerInfo};

verus! {

/// The name under which the sink controller connects to the server.
pub const SINK_CLIENT_NAME: &'static str = "SinkController";

/// The name under which the source controller connects to the server.
pub const SOURCE_CLIENT_NAME: &'static str = "SourceController";

/// What the sink controller reports when the server sent no information about itself.
pub const SINK_SERVER_INFO_MISSING: &'static str = "Error getting information about the server";

/// What the sink controller reports when the server sent no device for a lookup.
pub const SINK_DEVICE_MISSING: &'static str = "Error getting requested device";

/// What the sink controller reports when the server sent no stream for a lookup.
pub const SINK_APP_MISSING: &'static str = "Error getting requested app";

/// What the source controller reports when the server sent nothing for a lookup, be it of
/// the server, a device or a stream.
pub const SOURCE_INFO_MISSING: &'static str = "Error getting application list";

/// The item a lookup answers with: the last item the server reported.
pub open spec fn looked_up<T>(entries: Seq<ListEntry<T>>) -> Option<T> {
    last_reported(reported_items(entries))
}

/// How connecting a controller ends: the controller once connected, else the connection's
/// failure.
pub open spec fn create_outcome<C>(r: Result<C, ControllerError>, connected: Result<(), PulseCtlError>) -> bool {
    match connected {
        Ok(_) => r is Ok,
        Err(e) => r == Err::<C, ControllerError>(ControllerError::PulseCtl(e)),
    }
}

/// The volumes that a relative volume change of a device starts from: those of the device
/// that was looked up, or none, and then nothing is changed, when the lookup failed.
pub fn device_volume_to_change(found: Result<DeviceInfo, ControllerError>) -> (r: Option<ChannelVolumes>)
    ensures
        r == match found {
            Ok(d) => Some(d.volume),
            Err(_) => None::<ChannelVolumes>,
        },
{
    match found {
        Ok(d) => Some(d.volume),
        Err(_) => None,
    }
}

/// The volumes that a relative volume change of a stream starts from: those of the stream
/// that was looked up, or none, and then nothing is changed, when the lookup failed.
pub fn app_volume_to_change(found: Result<ApplicationInfo, ControllerError>) -> (r: Option<ChannelVolumes>)
    ensures
        r == match found {
            Ok(a) => Some(a.volume),
            Err(_) => None::<ChannelVolumes>,
        },
{
    match found {
        Ok(a) => Some(a.volume),
        Err(_) => None,
    }
}

/// The controller for sinks (playback devices) and sink inputs (streams that play).
pub struct SinkController;

/// The controller for sources (recording devices) and source outputs (streams that record).
pub struct SourceController;

impl SinkController {
    /// The controller, once the connection under [`SINK_CLIENT_NAME`] has been made.
    pub fn create(connected: Result<(), PulseCtlError>) -> (r: Result<SinkController, ControllerError>)
        ensures
            create_outcome(r, connected),
    {
        match connected {
            Ok(()) => Ok(SinkController),
            Err(e) => Err(ControllerError::PulseCtl(e)),
        }
    }

    /// The server's description of itself: the last one it reported.
    pub fn get_server_info(&self, reported: Vec<ServerInfo>, waited: Result<(), PulseCtlError>) -> (r:
        Result<ServerInfo, ControllerError>)
        ensures
            lookup_outcome(r, last_reported(reported@), waited, SINK_SERVER_INFO_MISSING@),
    {
        finish_lookup(take_last(reported), waited, SINK_SERVER_INFO_MISSING)
    }

    /// Setting the port of a sink by its name reports success whatever the server answered.
    pub fn set_port_by_name(&self, waited: Result<(), PulseCtlError>) -> (r: Result<bool, ControllerError>)
        ensures
            r == Ok::<bool, ControllerError>(true),
    {
        Ok(true)
    }

    /// The name of the default sink, to be looked up next, from the server's description
    /// of itself; a failure to get that description is the result.
    pub fn get_default_device(&self, server: Result<ServerInfo, ControllerError>) -> (r: Result<
        String,
        ControllerError,
    >)
        requires
            server matches Ok(info) ==> info.default_sink_name is Some,
        ensures
            server matches Ok(info) ==> r == Ok::<String, ControllerError>(info.default_sink_name->0),
            server matches Err(e) ==> r == Err::<String, ControllerError>(e),
    {
        match server {
            Ok(info) => Ok(info.default_sink_name.unwrap()),
            Err(e) => Err(e),
        }
    }

    /// Whether making a sink the default one succeeded: the last flag the server reported.
    pub fn set_default_device(&self, reported: Vec<bool>, waited: Result<(), PulseCtlError>) -> (r:
        Result<bool, ControllerError>)
        ensures
            flag_outcome(r, reported@, waited),
    {
        finish_flag(reported, waited)
    }

    /// Every sink the server listed, in order.
    pub fn list_devices(&self, reported: Vec<ListEntry<DeviceInfo>>, waited: Result<(), PulseCtlError>) -> (r:
        Result<Vec<DeviceInfo>, ControllerError>)
        ensures
            list_outcome(r, reported_items(reported@), waited),
    {
        finish_list(reported, waited)
    }

    /// The sink found by its index: the last one the server reported.
    pub fn get_device_by_index(
        &self,
        reported: Vec<ListEntry<DeviceInfo>>,
        waited: Result<(), PulseCtlError>,
    ) -> (r: Result<DeviceInfo, ControllerError>)
        ensures
            lookup_outcome(r, looked_up(reported@), waited, SINK_DEVICE_MISSING@),
    {
        finish_lookup(take_last(collect_items(reported)), waited, SINK_DEVICE_MISSING)
    }

    /// The sink found by its name: the last one the server reported.
    pub fn get_device_by_name(
        &self,
        reported: Vec<ListEntry<DeviceInfo>>,
        waited: Result<(), PulseCtlError>,
    ) -> (r: Result<DeviceInfo, ControllerError>)
        ensures
            lookup_outcome(r, looked_up(reported@), waited, SINK_DEVICE_MISSING@),
    {
        finish_lookup(take_last(collect_items(reported)), waited, SINK_DEVICE_MISSING)
    }

    /// Every sink input the server listed, in order.
    pub fn list_applications(
        &self,
        reported: Vec<ListEntry<ApplicationInfo>>,
        waited: Result<(), PulseCtlError>,
    ) -> (r: Result<Vec<ApplicationInfo>, ControllerError>)
        ensures
            list_outcome(r, reported_items(reported@), waited),
    {
        finish_list(reported, waited)
    }

    /// The sink input found by its index: the last one the server reported.
    pub fn get_app_by_index(
        &self,
        reported: Vec<ListEntry<ApplicationInfo>>,
        waited: Result<(), PulseCtlError>,
    ) -> (r: Result<ApplicationInfo, ControllerError>)
        ensures
            lookup_outcome(r, looked_up(reported@), waited, SINK_APP_MISSING@),
    {
        finish_lookup(take_last(collect_items(reported)), waited, SINK_APP_MISSING)
    }

    /// Whether moving a sink input to the sink with a given index succeeded.
    pub fn move_app_by_index(&self, reported: Vec<bool>, waited: Result<(), PulseCtlError>) -> (r:
        Result<bool, ControllerError>)
        ensures
            flag_outcome(r, reported@, waited),
    {
        finish_flag(reported, waited)
    }

    /// Whether moving a sink input to the sink with a given name succeeded.
    pub fn move_app_by_name(&self, reported: Vec<bool>, waited: Result<(), PulseCtlError>) -> (r:
        Result<bool, ControllerError>)
        ensures
            flag_outcome(r, reported@, waited),
    {
        finish_flag(reported, waited)
    }

    /// Whether muting or unmuting a sink input succeeded.
    pub fn set_app_mute(&self, reported: Vec<bool>, waited: Result<(), PulseCtlError>) -> (r: Result<
        bool,
        ControllerError,
    >)
        ensures
            flag_outcome(r, reported@, waited),
    {
        finish_flag(reported, waited)
    }
}

impl SourceController {
    /// The controller, once the connection under [`SOURCE_CLIENT_NAME`] has been made.
    pub fn create(connected: Result<(), PulseCtlError>) -> (r: Result<SourceController, ControllerError>)
        ensures
            create_outcome(r, connected),
    {
        match connected {
            Ok(()) => Ok(SourceController),
            Err(e) => Err(ControllerError::PulseCtl(e)),
        }
    }

    /// The server's description of itself: the last one it reported.
    pub fn get_server_info(&self, reported: Vec<ServerInfo>, waited: Result<(), PulseCtlError>) -> (r:
        Result<ServerInfo, ControllerError>)
        ensures
            lookup_outcome(r, last_reported(reported@), waited, SOURCE_INFO_MISSING@),
    {
        finish_lookup(take_last(reported), waited, SOURCE_INFO_MISSING)
    }

    /// The name of the default source, to be looked up next, from the server's description
    /// of itself; a failure to get that description is the result.
    pub fn get_default_device(&self, server: Result<ServerInfo, ControllerError>) -> (r: Result<
        String,
        ControllerError,
    >)
        requires
            server matches Ok(info) ==> info.default_source_name is Some,
        ensures
            server matches Ok(info) ==> r == Ok::<String, ControllerError>(info.default_source_name->0),
            server matches Err(e) ==> r == Err::<String, ControllerError>(e),
    {
        match server {
            Ok(info) => Ok(info.default_source_name.unwrap()),
            Err(e) => Err(e),
        }
    }

    /// Whether making a source the default one succeeded: the last flag the server reported.
    pub fn set_default_device(&self, reported: Vec<bool>, waited: Result<(), PulseCtlError>) -> (r:
        Result<bool, ControllerError>)
        ensures
            flag_outcome(r, reported@, waited),
    {
        finish_flag(reported, waited)
    }

    /// Every source the server listed, in order.
    pub fn list_devices(&self, reported: Vec<ListEntry<DeviceInfo>>, waited: Result<(), PulseCtlError>) -> (r:
        Result<Vec<DeviceInfo>, ControllerError>)
        ensures
            list_outcome(r, reported_items(reported@), waited),
    {
        finish_list(reported, waited)
    }

    /// The source found by its index: the last one the server reported.
    pub fn get_device_by_index(
        &self,
        reported: Vec<ListEntry<DeviceInfo>>,
        waited: Result<(), PulseCtlError>,
    ) -> (r: Result<DeviceInfo, ControllerError>)
        ensures
            lookup_outcome(r, looked_up(reported@), waited, SOURCE_INFO_MISSING@),
    {
        finish_lookup(take_last(collect_items(reported)), waited, SOURCE_INFO_MISSING)
    }

    /// The source found by its name: the last one the server reported.
    pub fn get_device_by_name(
        &self,
        reported: Vec<ListEntry<DeviceInfo>>,
        waited: Result<(), PulseCtlError>,
    ) -> (r: Result<DeviceInfo, ControllerError>)
        ensures
            lookup_outcome(r, looked_up(reported@), waited, SOURCE_INFO_MISSING@),
    {
        finish_lookup(take_last(collect_items(reported)), waited, SOURCE_INFO_MISSING)
    }

    /// Every source output the server listed, in order.
    pub fn list_applications(
        &self,
        reported: Vec<ListEntry<ApplicationInfo>>,
        waited: Result<(), PulseCtlError>,
    ) -> (r: Result<Vec<ApplicationInfo>, ControllerError>)
        ensures
            list_outcome(r, reported_items(reported@), waited),
    {
        finish_list(reported, waited)
    }

    /// The source output found by its index: the last one the server reported.
    pub fn get_app_by_index(
        &self,
        reported: Vec<ListEntry<ApplicationInfo>>,
        waited: Result<(), PulseCtlError>,
    ) -> (r: Result<ApplicationInfo, ControllerError>)
        ensures
            lookup_outcome(r, looked_up(reported@), waited, SOURCE_INFO_MISSING@),
    {
        finish_lookup(take_last(collect_items(reported)), waited, SOURCE_INFO_MISSING)
    }

    /// Whether moving a source output to the source with a given index succeeded.
    pub fn move_app_by_index(&self, reported: Vec<bool>, waited: Result<(), PulseCtlError>) -> (r:
        Result<bool, ControllerError>)
        ensures
            flag_outcome(r, reported@, waited),
    {
        finish_flag(reported, waited)
    }

    /// Whether moving a source output to the source with a given name succeeded.
    pub fn move_app_by_name(&self, reported: Vec<bool>, waited: Result<(), PulseCtlError>) -> (r:
        Result<bool, ControllerError>)
        ensures
            flag_outcome(r, reported@, waited),
    {
        finish_flag(reported, waited)
    }

    /// Whether the mute request of the source output succeeded. The request that is sent is
    /// the one that mutes the source with the same index, not the source output.
    pub fn set_app_mute(&self, reported: Vec<bool>, waited: Result<(), PulseCtlError>) -> (r: Result<
        bool,
        ControllerError,
    >)
        ensures
            flag_outcome(r, reported@, waited),
    {
        finish_flag(reported, waited)
    }
}

} // verus!
