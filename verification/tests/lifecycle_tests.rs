use telescope_park_bridge::alpaca_server::{put_connected, ConnectedFormData};
use telescope_park_bridge::connection_manager::ConnectionManager;
use telescope_park_bridge::device_state::{DeviceState, Reading};
use telescope_park_bridge::discovery_server::is_discovery_request;
use telescope_park_bridge::errors::BridgeError;
use telescope_park_bridge::port_discovery::{get_device_priority, read_port_choice, PortChoice};
use telescope_park_bridge::serial_client::{read_response, ReadOutcome};
use telescope_park_bridge::telescope_client::{parse_slew_direction, SlewDirection};
use telescope_park_bridge::text::trim_text;

#[test]
fn a_failed_open_reaches_the_caller_and_leaves_no_session() {
    let mut manager = ConnectionManager::new();
    let mut state = DeviceState::with_unique_id("id".to_string());
    let plan = manager.connect("COM9".to_string(), 115_200, &mut state, 10);
    assert_eq!(manager.current_session(), Some(plan.start.id));
    let error = manager.open_failed(plan.start.id, "Access denied".to_string(), &mut state, 11);
    assert_eq!(error, BridgeError::Serial("Access denied".to_string()));
    assert_eq!(error.message(), "Serial communication error: Access denied");
    assert_eq!(manager.current_session(), None);
    assert_eq!(manager.get_current_port(), None);
    assert_eq!(manager.send_command("06"), Err(BridgeError::NotConnected));
    let mut expected = DeviceState::with_unique_id("id".to_string());
    expected.last_update = 11;
    assert_eq!(state, expected);
    assert!(!manager.is_connected(&state));
}

#[test]
fn a_failed_open_of_a_replaced_session_leaves_the_current_one() {
    let mut manager = ConnectionManager::new();
    let mut state = DeviceState::with_unique_id(String::new());
    let first = manager.connect("COM1".to_string(), 9_600, &mut state, 1).start.id;
    let second = manager.connect("COM2".to_string(), 9_600, &mut state, 2).start.id;
    manager.open_failed(first, "late".to_string(), &mut state, 3);
    assert_eq!(manager.current_session(), Some(second));
    assert_eq!(manager.send_command("06").map(|r| r.session), Ok(second));
    // The record goes back to its defaults in either case.
    assert_eq!(state.serial_port, None);
}

#[test]
fn a_session_that_ended_by_itself_takes_no_command() {
    let mut manager = ConnectionManager::new();
    let mut state = DeviceState::with_unique_id(String::new());
    let id = manager.connect("COM3".to_string(), 115_200, &mut state, 1).start.id;
    assert!(manager.send_command("06").is_ok());
    manager.session_ended(id);
    assert_eq!(manager.current_session(), None);
    assert_eq!(manager.get_current_connection(), None);
    assert_eq!(manager.send_command("06"), Err(BridgeError::NotConnected));
    assert_eq!(manager.calibrate_sensor(), Err(BridgeError::NotConnected));
    // Ending it once more, or without any session, changes nothing.
    manager.session_ended(id);
    assert_eq!(manager.current_session(), None);
    // The next connect retires nothing and takes a new identifier.
    let plan = manager.connect("COM3".to_string(), 115_200, &mut state, 2);
    assert_eq!(plan.retire, None);
    assert_ne!(plan.start.id, id);
}

#[test]
fn the_end_of_a_replaced_session_changes_nothing() {
    let mut manager = ConnectionManager::new();
    let mut state = DeviceState::with_unique_id(String::new());
    let first = manager.connect("COM1".to_string(), 9_600, &mut state, 1).start.id;
    let second = manager.connect("COM2".to_string(), 9_600, &mut state, 2).start.id;
    manager.session_ended(first);
    assert_eq!(manager.current_session(), Some(second));
    assert_eq!(manager.get_current_port(), Some("COM2".to_string()));
    manager.session_ended(u64::MAX);
    assert_eq!(manager.current_session(), Some(second));
}

#[test]
fn a_new_session_never_carries_the_identifier_of_the_one_it_retires() {
    let mut manager = ConnectionManager::new();
    let mut state = DeviceState::with_unique_id(String::new());
    let mut last: Option<u64> = None;
    for round in 0..20u64 {
        let plan = manager.connect("COM1".to_string(), 9_600, &mut state, round);
        assert_eq!(plan.retire.map(|r| r.session), last);
        if let Some(retired) = last {
            assert_ne!(plan.start.id, retired);
        }
        last = Some(plan.start.id);
        if round % 3 == 2 {
            manager.session_ended(plan.start.id);
            last = None;
        }
        if round % 5 == 4 {
            manager.disconnect(&mut state, round);
            last = None;
        }
    }
}

#[test]
fn the_port_of_an_attempt_is_named_in_the_record() {
    let mut state = DeviceState::with_unique_id(String::new());
    state.set_error("old", 1);
    state.connected = true;
    state.target("/dev/ttyUSB0", 7);
    assert_eq!(state.serial_port, Some("/dev/ttyUSB0".to_string()));
    assert_eq!(state.error_message, None);
    assert_eq!(state.last_update, 7);
    assert!(state.connected);
}

#[test]
fn an_error_of_the_device_is_noted_and_nothing_else_changes() {
    let mut state = DeviceState::with_unique_id("id".to_string());
    state.connected = true;
    state.serial_port = Some("COM3".to_string());
    state.is_parked = true;
    state.is_safe = true;
    state.current_pitch = Reading::from_text("1.5");
    let before = state.duplicate();
    state.note_device_error("Sensor fault", 9);
    let mut expected = before;
    expected.error_message = Some("Sensor fault".to_string());
    expected.last_update = 9;
    assert_eq!(state, expected);
    // A failure of the connection, unlike an error of the device, disconnects.
    state.set_error("Port lost", 10);
    assert!(!state.connected);
}

#[test]
fn whitespace_is_the_unicode_white_space_set() {
    let spaces = [
        '\u{9}', '\u{a}', '\u{b}', '\u{c}', '\u{d}', ' ', '\u{85}', '\u{a0}', '\u{1680}',
        '\u{2000}', '\u{2005}', '\u{200a}', '\u{2028}', '\u{2029}', '\u{202f}', '\u{205f}',
        '\u{3000}',
    ];
    for c in spaces {
        assert_eq!(trim_text(&format!("{}x{}", c, c)), "x", "{:?}", c);
    }
    for c in ['\u{8}', '\u{e}', '\u{1f}', '\u{200b}', '\u{180e}', '\u{2060}', '\u{feff}', '_'] {
        let text = format!("{}x{}", c, c);
        assert_eq!(trim_text(&text), text, "{:?}", c);
    }
    assert_eq!(
        read_response(&ReadOutcome::Line { bytes_read: 4, text: " ok\n".to_string() }),
        Ok("ok".to_string())
    );
    assert_eq!(read_port_choice(" 2\r\n", 3), PortChoice::Selected(1));
    assert!(is_discovery_request("\talpacadiscovery1\n"));
}

#[test]
fn capital_ascii_letters_are_read_as_small_ones() {
    assert_eq!(get_device_priority("XIAO"), 100);
    assert_eq!(get_device_priority("Ftdi Cable"), 40);
    assert_eq!(get_device_priority("BLUETOOTH [1]"), 10);
    assert_eq!(parse_slew_direction("NoRtH"), Some(SlewDirection::North));
    assert_eq!(parse_slew_direction("EAST"), Some(SlewDirection::East));
    let mut state = DeviceState::with_unique_id(String::new());
    let form = Some(ConnectedFormData { client_transaction_id: 1, connected: "TRUE".to_string() });
    assert_eq!(put_connected(0, &form, &mut state), Ok(true));
    let form = Some(ConnectedFormData { client_transaction_id: 1, connected: "fALSE".to_string() });
    assert_eq!(put_connected(0, &form, &mut state), Ok(false));
}
