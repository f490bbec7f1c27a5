use colmi_client::device::Device;
use colmi_client::error::{ConnectionError, DeviceError, ScanError};
use colmi_client::protocol::battery::BatteryResponse;
use colmi_client::tui::{App, ControlCommand, Effect, Key, Screen, TaskKind, TaskOutcome, TaskRequest};

fn device(name: &str, vendor: bool) -> Device {
    Device { name: name.to_string(), id: format!("id-{}", name), is_colmi_device: vendor }
}

fn listing(names: &[&str]) -> App {
    let mut app = App::new();
    app.current_screen = Screen::DeviceList;
    app.devices = names.iter().map(|n| device(n, true)).collect();
    app.selected_device = Some(0);
    app
}

fn connected() -> App {
    let mut app = App::new();
    app.current_screen = Screen::Connected;
    app.connected_device = Some(device("ring", true));
    app
}

fn reading(pct: u8, charging: bool) -> BatteryResponse {
    BatteryResponse { command_id: 3, charge_pct: pct, is_charging: charging, padding: [0; 12], checksum: 0 }
}

#[test]
fn app_starts_idle() {
    let app = App::new();
    assert_eq!(app.current_screen, Screen::Idle);
    assert_eq!(app.status_message, "Ready to scan");
    assert!(!app.should_quit && !app.scan_task && !app.connection_task);
}

#[test]
fn enter_then_escape_cancels_the_connection() {
    let mut app = listing(&["a", "b"]);
    app.handle_key_event(Key::Down);
    let effect = app.handle_key_event(Key::Enter);
    match effect {
        Effect::Spawn(TaskRequest::Connect(d)) => assert_eq!(d.name, "b"),
        other => panic!("unexpected effect {:?}", other),
    }
    assert_eq!(app.current_screen, Screen::Connecting);
    assert!(app.connection_task);
    assert_eq!(app.connecting_device_name.as_deref(), Some("b, (id-b)"));
    assert_eq!(app.status_message, "Selected: b, (id-b)");

    let again = app.handle_key_event(Key::Enter);
    assert!(matches!(again, Effect::Nothing));

    let effect = app.handle_key_event(Key::Esc);
    assert!(matches!(effect, Effect::Abort(TaskKind::Connect)));
    assert_eq!(app.current_screen, Screen::Idle);
    assert!(!app.connection_task);
    assert_eq!(app.status_message, "Connection cancelled");

    app.apply_outcome(&TaskOutcome::Connect(Ok(())));
    assert_eq!(app.current_screen, Screen::Idle);
    assert!(app.connected_device.is_none());
    assert_eq!(app.status_message, "Connection cancelled");
}

#[test]
fn scan_finds_vendor_devices() {
    let mut app = App::new();
    let effect = app.handle_key_event(Key::Char('s'));
    assert!(matches!(effect, Effect::Spawn(TaskRequest::Scan)));
    assert_eq!(app.current_screen, Screen::Scanning);
    assert!(matches!(app.handle_key_event(Key::Char('s')), Effect::Nothing));
    app.update_operations(&vec![TaskOutcome::Scan(Ok(vec![
        device("phone", false),
        device("ring", true),
    ]))]);
    assert_eq!(app.current_screen, Screen::DeviceList);
    assert_eq!(app.devices.len(), 1);
    assert_eq!(app.selected_device, Some(0));
    assert_eq!(app.status_message, "Found 1 devices");
    assert!(!app.scan_task);
}

#[test]
fn scan_without_vendor_devices_shows_an_error() {
    let mut app = App::new();
    app.handle_key_event(Key::Char('s'));
    app.apply_outcome(&TaskOutcome::Scan(Ok(vec![device("phone", false)])));
    assert_eq!(app.current_screen, Screen::Error);
    assert_eq!(
        app.error_message.as_deref(),
        Some("Scan failed: No Colmi devices found! Try `colmi_client scan --all` to see all devices.")
    );
    app.handle_key_event(Key::Esc);
    assert_eq!(app.current_screen, Screen::Idle);
    assert!(app.error_message.is_none());
}

#[test]
fn scan_error_and_crash() {
    let mut app = App::new();
    app.handle_key_event(Key::Char('s'));
    app.apply_outcome(&TaskOutcome::Scan(Err(ScanError::NoAdapters)));
    assert_eq!(
        app.error_message.as_deref(),
        Some("Scan failed: No Bluetooth adapters found! Please ensure Bluetooth is turned on.")
    );
    let mut app = App::new();
    app.handle_key_event(Key::Char('s'));
    app.apply_outcome(&TaskOutcome::Crashed(TaskKind::Scan));
    assert_eq!(app.error_message.as_deref(), Some("Scan task panicked"));
}

#[test]
fn escape_stops_a_scan() {
    let mut app = App::new();
    app.handle_key_event(Key::Char('s'));
    let effect = app.handle_key_event(Key::Esc);
    assert!(matches!(effect, Effect::Abort(TaskKind::Scan)));
    assert_eq!(app.current_screen, Screen::Idle);
    assert_eq!(app.status_message, "Scanning cancelled");
    app.apply_outcome(&TaskOutcome::Scan(Ok(vec![device("ring", true)])));
    assert_eq!(app.current_screen, Screen::Idle);
    assert!(app.devices.is_empty());
}

#[test]
fn connection_result_connects_or_fails() {
    let mut app = listing(&["ring"]);
    app.handle_key_event(Key::Enter);
    app.apply_outcome(&TaskOutcome::Connect(Ok(())));
    assert_eq!(app.current_screen, Screen::Connected);
    assert_eq!(app.status_message, "Connected to ring, (id-ring)");
    assert_eq!(app.connected_device.as_ref().map(|d| d.name.as_str()), Some("ring"));
    assert!(app.connecting_device_name.is_none() && !app.is_operation_in_progress);

    let mut app = listing(&["ring"]);
    app.handle_key_event(Key::Enter);
    app.apply_outcome(&TaskOutcome::Connect(Err(DeviceError::Connection(
        ConnectionError::ConnectionFailed,
    ))));
    assert_eq!(app.current_screen, Screen::Error);
    assert_eq!(
        app.error_message.as_deref(),
        Some("Connection failed: Connection to selected device failed!")
    );
}

#[test]
fn battery_reading_updates_status() {
    let mut app = connected();
    let effect = app.handle_key_event(Key::Char('b'));
    assert!(matches!(effect, Effect::Spawn(TaskRequest::Battery(_))));
    assert_eq!(app.status_message, "Fetching battery level...");
    app.apply_outcome(&TaskOutcome::Battery(Ok(reading(80, true))));
    assert_eq!(app.status_message, "Battery: 80% | Charging: true");
    assert_eq!(app.battery_level.map(|b| b.charge_pct), Some(80));
    assert_eq!(app.current_screen, Screen::Connected);
}

#[test]
fn battery_failure_stays_connected() {
    let mut app = connected();
    app.handle_key_event(Key::Char('b'));
    app.apply_outcome(&TaskOutcome::Battery(Err(DeviceError::Timeout)));
    assert_eq!(app.current_screen, Screen::Connected);
    assert_eq!(app.status_message, "Battery fetch failed: Operation timed out");
}

#[test]
fn device_controls_and_reset_confirmation() {
    let mut app = connected();
    let effect = app.handle_key_event(Key::Char('1'));
    assert!(matches!(effect, Effect::Spawn(TaskRequest::Control(ControlCommand::Blink, _))));
    assert!(matches!(app.handle_key_event(Key::Char('2')), Effect::Nothing));
    app.apply_outcome(&TaskOutcome::Command(Ok(())));
    assert_eq!(app.status_message, "Operation completed successfully");

    assert!(matches!(app.handle_key_event(Key::Char('4')), Effect::Nothing));
    assert_eq!(app.current_screen, Screen::ConfirmReset);
    app.handle_key_event(Key::Esc);
    assert_eq!(app.current_screen, Screen::Connected);
    app.handle_key_event(Key::Char('4'));
    let effect = app.handle_key_event(Key::Char('4'));
    assert!(matches!(effect, Effect::Spawn(TaskRequest::Control(ControlCommand::Reset, _))));
    assert_eq!(app.current_screen, Screen::Connected);
    app.apply_outcome(&TaskOutcome::Command(Err(DeviceError::Connection(
        ConnectionError::WriteFailed,
    ))));
    assert_eq!(app.current_screen, Screen::Error);
    assert_eq!(
        app.error_message.as_deref(),
        Some("Operation failed: Failed to write data to selected device!")
    );
}

#[test]
fn selection_moves_within_the_list() {
    let mut app = listing(&["a", "b", "c"]);
    app.handle_key_event(Key::Up);
    assert_eq!(app.selected_device, Some(0));
    app.handle_key_event(Key::Down);
    app.handle_key_event(Key::Down);
    app.handle_key_event(Key::Down);
    assert_eq!(app.selected_device, Some(2));
    app.handle_key_event(Key::Up);
    assert_eq!(app.selected_device, Some(1));
    app.handle_key_event(Key::Esc);
    assert_eq!(app.current_screen, Screen::Idle);
    assert!(app.devices.is_empty() && app.selected_device.is_none());
}

#[test]
fn quit_key_sets_flag() {
    let mut app = App::new();
    app.handle_key_event(Key::Char('q'));
    assert!(app.should_quit);
    assert!(matches!(app.handle_key_event(Key::Other), Effect::Nothing));
}
