use telescope_park_bridge::connection_manager::{
    command_outcome, must_abort, CommandRequest, ConnectionInfo, ConnectionManager, Reply,
    RetirePlan, SessionHandle, CALIBRATE_COMMAND, FACTORY_RESET_COMMAND, JOIN_TIMEOUT_MS,
    RETIRE_SETTLE_MS, SET_PARK_COMMAND,
};
use telescope_park_bridge::device_state::{DeviceState, Reading};
use telescope_park_bridge::errors::BridgeError;

fn retire(session: u64) -> RetirePlan {
    RetirePlan { session, join_timeout_ms: 2_000, settle_ms: 100 }
}

#[test]
fn the_fixed_parameters_of_the_manager() {
    assert_eq!(JOIN_TIMEOUT_MS, 2_000);
    assert_eq!(RETIRE_SETTLE_MS, 100);
    assert_eq!(CALIBRATE_COMMAND, "06");
    assert_eq!(SET_PARK_COMMAND, "0D");
    assert_eq!(FACTORY_RESET_COMMAND, "0E");
}

#[test]
fn a_new_manager_has_no_session() {
    let manager = ConnectionManager::new();
    assert_eq!(manager.current_session(), None);
    assert_eq!(manager.get_current_connection(), None);
    assert_eq!(manager.get_current_port(), None);
}

#[test]
fn the_first_connect_retires_nothing() {
    let mut manager = ConnectionManager::new();
    let mut state = DeviceState::with_unique_id(String::new());
    state.error_message = Some("old".to_string());
    let plan = manager.connect("COM3".to_string(), 115_200, &mut state, 42);
    assert_eq!(plan.retire, None);
    assert_eq!(plan.start, SessionHandle { id: 0, port: "COM3".to_string(), baud_rate: 115_200 });
    assert_eq!(plan.message, "Connecting to nRF52840 device on COM3 at 115200 baud");
    assert_eq!(manager.current_session(), Some(0));
    assert_eq!(
        manager.get_current_connection(),
        Some(ConnectionInfo { port: "COM3".to_string(), baud_rate: 115_200 })
    );
    assert_eq!(manager.get_current_port(), Some("COM3".to_string()));
    assert_eq!(state.serial_port, Some("COM3".to_string()));
    assert_eq!(state.error_message, None);
    assert_eq!(state.last_update, 42);
    // The caller does not wait for the handshake: the state is not connected.
    assert!(!manager.is_connected(&state));
}

#[test]
fn a_second_connect_retires_the_first_session_before_it_starts_the_next() {
    let mut manager = ConnectionManager::new();
    let mut state = DeviceState::with_unique_id(String::new());
    let mut running: Vec<u64> = Vec::new();
    for (i, port) in ["COM3", "COM4", "COM3", "/dev/ttyACM0"].iter().enumerate() {
        let plan = manager.connect(port.to_string(), 9_600, &mut state, 1);
        if let Some(r) = plan.retire {
            assert_eq!(r, retire(i as u64 - 1));
            running.retain(|id| *id != r.session);
        }
        assert!(running.is_empty(), "the old session is gone before the new one opens");
        running.push(plan.start.id);
        assert_eq!(plan.start.id, i as u64);
        assert_eq!(running.len(), 1);
        assert_eq!(manager.current_session(), Some(i as u64));
    }
    assert_eq!(manager.get_current_port(), Some("/dev/ttyACM0".to_string()));
}

#[test]
fn the_connect_message_writes_the_speed_in_decimal() {
    let mut manager = ConnectionManager::new();
    let mut state = DeviceState::with_unique_id(String::new());
    assert_eq!(
        manager.connect("p".to_string(), 0, &mut state, 1).message,
        "Connecting to nRF52840 device on p at 0 baud"
    );
    assert_eq!(
        manager.connect(String::new(), u32::MAX, &mut state, 1).message,
        "Connecting to nRF52840 device on  at 4294967295 baud"
    );
}

#[test]
fn a_disconnect_without_a_session_is_a_no_op_that_succeeds() {
    let mut manager = ConnectionManager::new();
    let mut state = DeviceState::with_unique_id("id".to_string());
    let plan = manager.disconnect(&mut state, 5);
    assert_eq!(plan.retire, None);
    assert_eq!(plan.message, "Disconnected from nRF52840 device and cleared all data");
    assert_eq!(manager.current_session(), None);
    let mut expected = DeviceState::with_unique_id("id".to_string());
    expected.last_update = 5;
    assert_eq!(state, expected);
    // And again.
    let again = manager.disconnect(&mut state, 5);
    assert_eq!(again, plan);
    assert_eq!(state, expected);
}

#[test]
fn a_disconnect_retires_the_session_and_resets_the_state() {
    let mut manager = ConnectionManager::new();
    let mut state = DeviceState::with_unique_id(String::new());
    manager.connect("COM3".to_string(), 115_200, &mut state, 1);
    state.connected = true;
    state.is_parked = true;
    state.is_safe = true;
    state.current_pitch = Reading::from_text("4.5");
    let plan = manager.disconnect(&mut state, 9);
    assert_eq!(plan.retire, Some(retire(0)));
    assert_eq!(manager.current_session(), None);
    assert_eq!(manager.get_current_port(), None);
    assert!(!state.connected && !state.is_parked && !state.is_safe);
    assert_eq!(state.serial_port, None);
    assert_eq!(state.current_pitch, Reading::zero());
    assert_eq!(state.last_update, 9);
    // The next session gets a new identifier.
    assert_eq!(manager.connect("COM3".to_string(), 115_200, &mut state, 10).start.id, 1);
}

#[test]
fn a_command_without_a_session_is_rejected_at_once() {
    let mut manager = ConnectionManager::new();
    assert_eq!(manager.send_command("06"), Err(BridgeError::NotConnected));
    assert_eq!(manager.calibrate_sensor(), Err(BridgeError::NotConnected));
    assert_eq!(manager.set_park_position(), Err(BridgeError::NotConnected));
    assert_eq!(manager.factory_reset(), Err(BridgeError::NotConnected));
}

#[test]
fn a_command_goes_to_the_current_session_under_a_fresh_ticket() {
    let mut manager = ConnectionManager::new();
    let mut state = DeviceState::with_unique_id(String::new());
    manager.connect("a".to_string(), 1, &mut state, 1);
    manager.connect("b".to_string(), 1, &mut state, 1);
    let request = |command: &str, ticket: u64| CommandRequest {
        command: command.to_string(),
        ticket,
        session: 1,
        timeout_ms: 15_000,
    };
    assert_eq!(manager.send_command("0A"), Ok(request("0A", 0)));
    assert_eq!(manager.calibrate_sensor(), Ok(request("06", 1)));
    assert_eq!(manager.set_park_position(), Ok(request("0D", 2)));
    assert_eq!(manager.factory_reset(), Ok(request("0E", 3)));
    assert_eq!(manager.send_command(""), Ok(request("", 4)));
}

#[test]
fn the_end_of_a_wait_decides_what_the_caller_is_told() {
    assert_eq!(
        command_outcome(Reply::Answered(Ok("{\"status\":\"ok\"}".to_string()))),
        Ok("{\"status\":\"ok\"}".to_string())
    );
    assert_eq!(
        command_outcome(Reply::Answered(Err(BridgeError::Device("no".to_string())))),
        Err(BridgeError::Device("no".to_string()))
    );
    assert_eq!(
        command_outcome(Reply::NotAccepted),
        Err(BridgeError::Device("Command channel closed".to_string()))
    );
    assert_eq!(
        command_outcome(Reply::Dropped),
        Err(BridgeError::Device("Command response channel closed".to_string()))
    );
    assert_eq!(command_outcome(Reply::TimedOut), Err(BridgeError::Timeout));
}

#[test]
fn a_task_is_aborted_where_the_join_ran_out() {
    assert!(must_abort(false));
    assert!(!must_abort(true));
}

#[test]
fn connected_means_the_flag_of_the_device_state() {
    let mut manager = ConnectionManager::new();
    let mut state = DeviceState::with_unique_id(String::new());
    state.connected = true;
    assert!(manager.is_connected(&state));
    manager.connect("COM3".to_string(), 1, &mut state, 1);
    state.connected = false;
    assert!(!manager.is_connected(&state));
}

#[test]
fn every_failure_has_its_sentence() {
    assert_eq!(
        BridgeError::Serial("no such port".to_string()).message(),
        "Serial communication error: no such port"
    );
    assert_eq!(BridgeError::Json("eof".to_string()).message(), "JSON parsing error: eof");
    assert_eq!(BridgeError::Io("broken".to_string()).message(), "IO error: broken");
    assert_eq!(BridgeError::NotConnected.message(), "Device not connected");
    assert_eq!(
        BridgeError::InvalidResponse("x".to_string()).message(),
        "Invalid response from device: x"
    );
    assert_eq!(BridgeError::Timeout.message(), "Timeout waiting for device response");
    assert_eq!(BridgeError::Device("hot".to_string()).message(), "Device error: hot");
    assert_eq!(BridgeError::Device("hot".to_string()).duplicate(), BridgeError::Device("hot".to_string()));
}
