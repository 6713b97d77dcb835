use pulsectl::controllers::{
    app_volume_to_change, device_volume_to_change,
    SINK_APP_MISSING, SINK_CLIENT_NAME, SINK_DEVICE_MISSING, SINK_SERVER_INFO_MISSING,
    SOURCE_CLIENT_NAME, SOURCE_INFO_MISSING,
};
use pulsectl::reports::collect_items;
use pulsectl::{
    ApplicationInfo, ChannelVolumes, ControllerError, DeviceInfo, ListEntry, PulseCtlError,
    PulseCtlErrorType, ServerInfo, SinkController, SourceController,
};

fn device(index: u32, name: &str) -> DeviceInfo {
    DeviceInfo {
        index,
        name: Some(name.to_string()),
        description: Some(format!("{} description", name)),
        owner_module: Some(7),
        volume: ChannelVolumes { values: vec![0x10000, 0x8000] },
        mute: false,
        monitor: None,
        monitor_name: None,
        driver: Some("module-alsa-card.c".to_string()),
        card: Some(1),
        ports: Vec::new(),
        active_port: None,
    }
}

fn app(index: u32, name: &str) -> ApplicationInfo {
    ApplicationInfo {
        index,
        name: Some(name.to_string()),
        owner_module: None,
        client: Some(3),
        connection_id: 0,
        volume: ChannelVolumes { values: vec![0x10000] },
        mute: false,
        corked: false,
        has_volume: true,
        volume_writable: true,
        driver: None,
    }
}

fn server(sink: Option<&str>, source: Option<&str>) -> ServerInfo {
    ServerInfo {
        user_name: Some("user".to_string()),
        host_name: Some("host".to_string()),
        server_version: Some("16.1".to_string()),
        server_name: Some("pulseaudio".to_string()),
        default_sink_name: sink.map(|s| s.to_string()),
        default_source_name: source.map(|s| s.to_string()),
        cookie: 42,
    }
}

fn op_error(msg: &str) -> PulseCtlError {
    PulseCtlError { error: PulseCtlErrorType::OperationError, message: msg.to_string() }
}

fn get_info(msg: &str) -> ControllerError {
    ControllerError::GetInfo(msg.to_string())
}

#[test]
fn client_names_are_the_controller_names() {
    assert_eq!(SINK_CLIENT_NAME, "SinkController");
    assert_eq!(SOURCE_CLIENT_NAME, "SourceController");
}

#[test]
fn create_succeeds_once_connected() {
    assert!(SinkController::create(Ok(())).is_ok());
    assert!(SourceController::create(Ok(())).is_ok());
}

#[test]
fn create_reports_the_connection_failure() {
    let e = PulseCtlError {
        error: PulseCtlErrorType::ConnectError,
        message: "Failed to connect".to_string(),
    };
    assert_eq!(
        SinkController::create(Err(e.clone())).err(),
        Some(ControllerError::PulseCtl(e.clone()))
    );
    assert_eq!(SourceController::create(Err(e.clone())).err(), Some(ControllerError::PulseCtl(e)));
}

#[test]
fn server_info_is_the_last_reported() {
    let c = SinkController::create(Ok(())).unwrap();
    let a = server(Some("a"), None);
    let b = server(Some("b"), None);
    assert_eq!(c.get_server_info(vec![a, b.clone()], Ok(())), Ok(b));
}

#[test]
fn server_info_missing_messages() {
    let sink = SinkController::create(Ok(())).unwrap();
    let source = SourceController::create(Ok(())).unwrap();
    assert_eq!(
        sink.get_server_info(Vec::new(), Ok(())),
        Err(get_info("Error getting information about the server"))
    );
    assert_eq!(
        source.get_server_info(Vec::new(), Ok(())),
        Err(get_info("Error getting application list"))
    );
    assert_eq!(SINK_SERVER_INFO_MISSING, "Error getting information about the server");
    assert_eq!(SOURCE_INFO_MISSING, "Error getting application list");
}

#[test]
fn server_info_wait_failure_wins() {
    let c = SourceController::create(Ok(())).unwrap();
    let e = op_error("Operation cancelled without an error");
    assert_eq!(
        c.get_server_info(vec![server(None, Some("mic"))], Err(e.clone())),
        Err(ControllerError::PulseCtl(e))
    );
}

#[test]
fn set_port_by_name_always_reports_true() {
    let c = SinkController::create(Ok(())).unwrap();
    assert_eq!(c.set_port_by_name(Ok(())), Ok(true));
    assert_eq!(c.set_port_by_name(Err(op_error("Iterate state quit without an error"))), Ok(true));
}

#[test]
fn default_device_names() {
    let sink = SinkController::create(Ok(())).unwrap();
    let source = SourceController::create(Ok(())).unwrap();
    let info = server(Some("alsa_output.speakers"), Some("alsa_input.mic"));
    assert_eq!(sink.get_default_device(Ok(info.clone())), Ok("alsa_output.speakers".to_string()));
    assert_eq!(source.get_default_device(Ok(info)), Ok("alsa_input.mic".to_string()));
    let e = get_info("Error getting information about the server");
    assert_eq!(sink.get_default_device(Err(e.clone())), Err(e));
}

#[test]
fn default_device_chain() {
    let sink = SinkController::create(Ok(())).unwrap();
    let info = sink.get_server_info(vec![server(Some("out"), None)], Ok(()));
    let name = sink.get_default_device(info).unwrap();
    assert_eq!(name, "out");
    let found = sink.get_device_by_name(
        vec![ListEntry::Item(device(4, &name)), ListEntry::End],
        Ok(()),
    );
    assert_eq!(found, Ok(device(4, "out")));
}

#[test]
fn set_default_device_flags() {
    let c = SinkController::create(Ok(())).unwrap();
    assert_eq!(c.set_default_device(vec![true], Ok(())), Ok(true));
    assert_eq!(c.set_default_device(vec![true, false], Ok(())), Ok(false));
    assert_eq!(c.set_default_device(Vec::new(), Ok(())), Ok(false));
    let e = op_error("x");
    assert_eq!(c.set_default_device(vec![true], Err(e.clone())), Err(ControllerError::PulseCtl(e)));
}

#[test]
fn list_devices_keeps_items_in_order() {
    let c = SinkController::create(Ok(())).unwrap();
    let entries = vec![
        ListEntry::Item(device(0, "a")),
        ListEntry::Error,
        ListEntry::Item(device(1, "b")),
        ListEntry::Item(device(2, "c")),
        ListEntry::End,
    ];
    assert_eq!(
        c.list_devices(entries, Ok(())),
        Ok(vec![device(0, "a"), device(1, "b"), device(2, "c")])
    );
}

#[test]
fn list_devices_empty_is_ok() {
    let c = SourceController::create(Ok(())).unwrap();
    assert_eq!(c.list_devices(vec![ListEntry::End], Ok(())), Ok(Vec::new()));
}

#[test]
fn list_devices_wait_failure() {
    let c = SourceController::create(Ok(())).unwrap();
    let e = op_error("failed");
    assert_eq!(
        c.list_devices(vec![ListEntry::Item(device(0, "a"))], Err(e.clone())),
        Err(ControllerError::PulseCtl(e))
    );
}

#[test]
fn device_lookup_takes_the_last_item() {
    let c = SinkController::create(Ok(())).unwrap();
    let entries = vec![
        ListEntry::Item(device(0, "a")),
        ListEntry::Item(device(1, "b")),
        ListEntry::End,
    ];
    assert_eq!(c.get_device_by_index(entries, Ok(())), Ok(device(1, "b")));
}

#[test]
fn device_lookup_missing_messages() {
    let sink = SinkController::create(Ok(())).unwrap();
    let source = SourceController::create(Ok(())).unwrap();
    assert_eq!(
        sink.get_device_by_index(vec![ListEntry::End], Ok(())),
        Err(get_info("Error getting requested device"))
    );
    assert_eq!(
        sink.get_device_by_name(vec![ListEntry::Error], Ok(())),
        Err(get_info("Error getting requested device"))
    );
    assert_eq!(
        source.get_device_by_index(Vec::new(), Ok(())),
        Err(get_info("Error getting application list"))
    );
    assert_eq!(
        source.get_device_by_name(vec![ListEntry::End], Ok(())),
        Err(get_info("Error getting application list"))
    );
    assert_eq!(SINK_DEVICE_MISSING, "Error getting requested device");
}

#[test]
fn device_lookup_wait_failure() {
    let c = SourceController::create(Ok(())).unwrap();
    let e = op_error("cancelled");
    assert_eq!(
        c.get_device_by_name(vec![ListEntry::Item(device(0, "a"))], Err(e.clone())),
        Err(ControllerError::PulseCtl(e))
    );
}

#[test]
fn applications_listed_in_order() {
    let sink = SinkController::create(Ok(())).unwrap();
    let source = SourceController::create(Ok(())).unwrap();
    let entries = vec![ListEntry::Item(app(5, "player")), ListEntry::Item(app(9, "browser")), ListEntry::End];
    assert_eq!(
        sink.list_applications(entries.clone(), Ok(())),
        Ok(vec![app(5, "player"), app(9, "browser")])
    );
    assert_eq!(source.list_applications(entries, Ok(())), Ok(vec![app(5, "player"), app(9, "browser")]));
}

#[test]
fn app_lookup() {
    let sink = SinkController::create(Ok(())).unwrap();
    let source = SourceController::create(Ok(())).unwrap();
    assert_eq!(
        sink.get_app_by_index(vec![ListEntry::Item(app(5, "player")), ListEntry::End], Ok(())),
        Ok(app(5, "player"))
    );
    assert_eq!(sink.get_app_by_index(vec![ListEntry::End], Ok(())), Err(get_info("Error getting requested app")));
    assert_eq!(
        source.get_app_by_index(vec![ListEntry::End], Ok(())),
        Err(get_info("Error getting application list"))
    );
    assert_eq!(SINK_APP_MISSING, "Error getting requested app");
}

#[test]
fn app_flags() {
    let sink = SinkController::create(Ok(())).unwrap();
    let source = SourceController::create(Ok(())).unwrap();
    assert_eq!(sink.move_app_by_index(vec![true], Ok(())), Ok(true));
    assert_eq!(sink.move_app_by_name(vec![false, true], Ok(())), Ok(true));
    assert_eq!(sink.set_app_mute(Vec::new(), Ok(())), Ok(false));
    assert_eq!(source.move_app_by_index(vec![true, false], Ok(())), Ok(false));
    assert_eq!(source.move_app_by_name(vec![true], Ok(())), Ok(true));
    let e = op_error("quit");
    assert_eq!(source.set_app_mute(vec![true], Err(e.clone())), Err(ControllerError::PulseCtl(e)));
    assert_eq!(source.set_default_device(vec![true], Ok(())), Ok(true));
}

#[test]
fn collect_items_drops_ends_and_errors() {
    let entries = vec![
        ListEntry::End,
        ListEntry::Item(1u32),
        ListEntry::Error,
        ListEntry::Item(2u32),
        ListEntry::Item(3u32),
    ];
    assert_eq!(collect_items(entries), vec![1, 2, 3]);
    assert_eq!(collect_items::<u32>(Vec::new()), Vec::<u32>::new());
}

#[test]
fn listing_two_batches_keeps_order() {
    let c = SinkController::create(Ok(())).unwrap();
    let first = vec![ListEntry::Item(device(0, "a")), ListEntry::End];
    let second = vec![ListEntry::Item(device(1, "b")), ListEntry::End];
    let mut both = first.clone();
    both.extend(second.clone());
    let mut expected = c.list_devices(first, Ok(())).unwrap();
    expected.extend(c.list_devices(second, Ok(())).unwrap());
    assert_eq!(c.list_devices(both, Ok(())), Ok(expected));
}

#[test]
fn later_report_wins_on_lookup() {
    let c = SinkController::create(Ok(())).unwrap();
    let reported = vec![ListEntry::Item(device(0, "a")), ListEntry::End, ListEntry::Error];
    assert_eq!(c.get_device_by_index(reported, Ok(())), Ok(device(0, "a")));
    let reported = vec![ListEntry::Item(device(0, "a")), ListEntry::Item(device(1, "b"))];
    assert_eq!(c.get_device_by_index(reported, Ok(())), Ok(device(1, "b")));
}

#[test]
fn lookup_agrees_with_listing() {
    let c = SourceController::create(Ok(())).unwrap();
    let reported = vec![
        ListEntry::Item(device(0, "a")),
        ListEntry::Item(device(1, "b")),
        ListEntry::End,
    ];
    let listed = c.list_devices(reported.clone(), Ok(())).unwrap();
    let found = c.get_device_by_index(reported, Ok(())).unwrap();
    assert_eq!(Some(&found), listed.last());
}

#[test]
fn volume_to_change_follows_the_lookup() {
    assert_eq!(
        device_volume_to_change(Ok(device(1, "a"))),
        Some(ChannelVolumes { values: vec![0x10000, 0x8000] })
    );
    assert_eq!(device_volume_to_change(Err(get_info("Error getting requested device"))), None);
    assert_eq!(app_volume_to_change(Ok(app(2, "p"))), Some(ChannelVolumes { values: vec![0x10000] }));
    assert_eq!(app_volume_to_change(Err(get_info("Error getting requested app"))), None);
}
