use telescope_park_bridge::alpaca_server::{
    command_response, connect_response, disconnect_response, get_connected, get_is_safe,
    parse_connected_form, read_form_pair, CommandResponse, ConnectResponse, ConnectedFormData,
    DeviceAction, Fault,
};
use telescope_park_bridge::device_state::DeviceState;
use telescope_park_bridge::discovery_server::{
    discovery_response, is_discovery_request, DISCOVERY_MESSAGE, DISCOVERY_PORT,
};
use telescope_park_bridge::errors::BridgeError;
use telescope_park_bridge::port_discovery::{read_port_choice, PortChoice};
use telescope_park_bridge::telescope_client::{
    build_url, checked_address, endpoint_url_text, telescope_connection_of,
    TelescopeConnectRequest, TelescopeConnection,
};
use telescope_park_bridge::text::{find_char, parse_unsigned};

fn form(id: u32, connected: &str) -> ConnectedFormData {
    ConnectedFormData { client_transaction_id: id, connected: connected.to_string() }
}

#[test]
fn a_form_is_read_pair_by_pair() {
    assert_eq!(parse_connected_form(""), form(0, ""));
    assert_eq!(parse_connected_form("Connected=true"), form(0, "true"));
    assert_eq!(parse_connected_form("Connected=True&ClientTransactionID=17"), form(17, "True"));
    assert_eq!(parse_connected_form("clienttransactionid=5&connected=false"), form(5, "false"));
    assert_eq!(parse_connected_form("ClientTransactionId=6&ClientID=9"), form(6, ""));
    assert_eq!(parse_connected_form("clientTransactionID=7&&x&=&Connected=a=b"), form(7, "a=b"));
}

#[test]
fn later_pairs_overwrite_earlier_ones() {
    assert_eq!(
        parse_connected_form("Connected=true&connected=false&ClientTransactionID=1&ClientTransactionID=2"),
        form(2, "false")
    );
}

#[test]
fn unknown_keys_and_pairs_without_an_equals_sign_change_nothing() {
    assert_eq!(parse_connected_form("Connected"), form(0, ""));
    assert_eq!(parse_connected_form("CONNECTED=true&Clienttransactionid=4"), form(0, ""));
    assert_eq!(read_form_pair(form(3, "x"), "other=1"), form(3, "x"));
    assert_eq!(read_form_pair(form(3, "x"), "noequals"), form(3, "x"));
    assert_eq!(read_form_pair(form(3, "x"), "Connected="), form(3, ""));
}

#[test]
fn values_are_percent_decoded_and_a_plus_stays_a_plus() {
    assert_eq!(parse_connected_form("Connected=tr%75e"), form(0, "true"));
    assert_eq!(parse_connected_form("Connected=a+b%20c"), form(0, "a+b c"));
    assert_eq!(parse_connected_form("ClientTransactionID=%31%32"), form(12, ""));
    // A value that decodes to no UTF-8 is skipped.
    assert_eq!(parse_connected_form("Connected=true&Connected=%ff"), form(0, "true"));
}

#[test]
fn a_transaction_number_that_is_no_number_counts_as_zero() {
    assert_eq!(parse_connected_form("ClientTransactionID=9&ClientTransactionID=abc"), form(0, ""));
    assert_eq!(parse_connected_form("ClientTransactionID=4294967295"), form(4294967295, ""));
    assert_eq!(parse_connected_form("ClientTransactionID=4294967296"), form(0, ""));
    assert_eq!(parse_connected_form("ClientTransactionID=-1"), form(0, ""));
    assert_eq!(parse_connected_form("ClientTransactionID=+8"), form(8, ""));
    assert_eq!(parse_connected_form("ClientTransactionID=%2B8"), form(8, ""));
    assert_eq!(parse_connected_form("ClientTransactionID= 8"), form(0, ""));
    assert_eq!(parse_connected_form("ClientTransactionID="), form(0, ""));
}

#[test]
fn unsigned_numbers_are_read_as_the_standard_library_reads_them() {
    for text in ["", "+", "0", "00", "007", "+0", "++1", "1+", "12a", " 1", "1 ", "-0", "4294967295",
        "4294967296", "99999999999999999999999", "\u{663}"]
    {
        assert_eq!(
            parse_unsigned(text, u32::MAX as u64),
            text.parse::<u32>().ok().map(|n| n as u64),
            "{:?}",
            text
        );
    }
    assert_eq!(parse_unsigned("18446744073709551615", u64::MAX), Some(u64::MAX));
    assert_eq!(parse_unsigned("18446744073709551616", u64::MAX), None);
    assert_eq!(parse_unsigned("10", 9), None);
    assert_eq!(parse_unsigned("9", 9), Some(9));
    assert_eq!(parse_unsigned("0", 0), Some(0));
}

#[test]
fn a_character_is_found_from_a_position_on() {
    let s: Vec<char> = "a=b=c".chars().collect();
    assert_eq!(find_char(&s, '=', 0), Some(1));
    assert_eq!(find_char(&s, '=', 1), Some(1));
    assert_eq!(find_char(&s, '=', 2), Some(3));
    assert_eq!(find_char(&s, '=', 4), None);
    assert_eq!(find_char(&s, '=', 99), None);
    assert_eq!(find_char(&s, 'x', 0), None);
}

#[test]
fn answers_to_connect_and_disconnect() {
    assert_eq!(
        connect_response(Ok("Connecting".to_string())),
        ConnectResponse { success: true, message: "Connecting".to_string() }
    );
    assert_eq!(
        connect_response(Err(BridgeError::Serial("busy".to_string()))),
        ConnectResponse {
            success: false,
            message: "Failed to connect: Serial communication error: busy".to_string()
        }
    );
    assert_eq!(
        disconnect_response(Err(BridgeError::Timeout)),
        ConnectResponse {
            success: false,
            message: "Failed to disconnect: Timeout waiting for device response".to_string()
        }
    );
    assert!(disconnect_response(Ok(String::new())).success);
}

#[test]
fn answers_to_commands() {
    let ok = |action, command: &str, message: &str| {
        assert_eq!(
            command_response(action, command, Ok("raw".to_string())),
            CommandResponse {
                success: true,
                command: command.to_string(),
                response: Some("raw".to_string()),
                message: message.to_string(),
            }
        );
    };
    ok(DeviceAction::Raw, "0A", "Command executed successfully");
    ok(DeviceAction::Calibrate, "06", "Sensor calibration completed");
    ok(DeviceAction::SetPark, "0D", "Park position set successfully");
    ok(DeviceAction::FactoryReset, "0E", "Factory reset completed");
    let failed = |action, message: &str| {
        assert_eq!(
            command_response(action, "c", Err(BridgeError::NotConnected)),
            CommandResponse {
                success: false,
                command: "c".to_string(),
                response: None,
                message: message.to_string(),
            }
        );
    };
    failed(DeviceAction::Raw, "Command failed: Device not connected");
    failed(DeviceAction::Calibrate, "Calibration failed: Device not connected");
    failed(DeviceAction::SetPark, "Set park failed: Device not connected");
    failed(DeviceAction::FactoryReset, "Factory reset failed: Device not connected");
}

#[test]
fn safe_is_answered_for_device_zero_only() {
    let mut state = DeviceState::with_unique_id(String::new());
    let invalid = Fault { error_number: 1024, error_message: "Invalid device number: 7".to_string() };
    assert_eq!(get_is_safe(7, &state), Err(invalid.clone()));
    assert_eq!(get_connected(7, &state), Err(invalid));
    assert_eq!(get_is_safe(0, &state), Ok(false));
    state.is_parked = true;
    state.is_safe = true;
    assert_eq!(get_is_safe(0, &state), Ok(false));
    state.connected = true;
    assert_eq!(get_is_safe(0, &state), Ok(true));
    assert_eq!(get_connected(0, &state), Ok(false));
    state.ascom_connected = true;
    assert_eq!(get_connected(0, &state), Ok(true));
}

#[test]
fn a_discovery_request_is_the_message_with_whitespace_around_it() {
    assert_eq!(DISCOVERY_PORT, 32227);
    assert_eq!(DISCOVERY_MESSAGE, "alpacadiscovery1");
    assert!(is_discovery_request("alpacadiscovery1"));
    assert!(is_discovery_request("  alpacadiscovery1\r\n"));
    assert!(!is_discovery_request("alpacadiscovery2"));
    assert!(!is_discovery_request("alpaca discovery1"));
    assert!(!is_discovery_request("ALPACADISCOVERY1"));
    assert!(!is_discovery_request(""));
}

#[test]
fn the_discovery_answer_names_the_port() {
    assert_eq!(discovery_response(11111), "{\"AlpacaPort\":11111}");
    assert_eq!(discovery_response(0), "{\"AlpacaPort\":0}");
    assert_eq!(discovery_response(u16::MAX), "{\"AlpacaPort\":65535}");
}

#[test]
fn the_address_of_an_endpoint_is_put_together() {
    assert_eq!(
        endpoint_url_text("http://mount:11111", 0, "connected"),
        "http://mount:11111/api/v1/telescope/0/connected"
    );
    assert_eq!(
        endpoint_url_text("http://mount///", 12, "name"),
        "http://mount/api/v1/telescope/12/name"
    );
    assert_eq!(endpoint_url_text("", 1, ""), "/api/v1/telescope/1/");
    assert_eq!(endpoint_url_text("//", 1, "x"), "/api/v1/telescope/1/x");
}

#[test]
fn the_address_is_checked_by_the_url_parser() {
    assert_eq!(
        build_url("http://Mount.Example:80/", 3, "tracking"),
        Ok("http://mount.example/api/v1/telescope/3/tracking".to_string())
    );
    assert_eq!(
        build_url("mount", 0, "name"),
        Err(BridgeError::InvalidResponse("relative URL without a base".to_string()))
    );
    assert_eq!(
        build_url("http://", 0, "name"),
        Ok("http://api/v1/telescope/0/name".to_string())
    );
    assert!(matches!(build_url("http://[1", 0, "name"), Err(BridgeError::InvalidResponse(_))));
    assert_eq!(checked_address(Ok("u".to_string())), Ok("u".to_string()));
    assert_eq!(
        checked_address(Err("bad".to_string())),
        Err(BridgeError::InvalidResponse("bad".to_string()))
    );
}

#[test]
fn a_request_to_connect_to_a_mount_is_checked() {
    let request = |kind: &str, url: Option<&str>, device: Option<u32>, prog: Option<&str>| {
        telescope_connection_of(TelescopeConnectRequest {
            connection_type: kind.to_string(),
            url: url.map(|s| s.to_string()),
            device_number: device,
            prog_id: prog.map(|s| s.to_string()),
        })
    };
    assert_eq!(
        request("alpaca", Some("http://m"), None, None),
        Ok(TelescopeConnection::Alpaca { url: "http://m".to_string(), device_number: 0 })
    );
    assert_eq!(
        request("alpaca", Some("http://m"), Some(2), Some("ignored")),
        Ok(TelescopeConnection::Alpaca { url: "http://m".to_string(), device_number: 2 })
    );
    assert_eq!(
        request("alpaca", None, Some(2), Some("p")),
        Err("URL required for Alpaca connection".to_string())
    );
    assert_eq!(
        request("local", Some("u"), None, Some("ASCOM.Simulator.Telescope")),
        Ok(TelescopeConnection::Local { prog_id: "ASCOM.Simulator.Telescope".to_string() })
    );
    assert_eq!(
        request("local", Some("u"), None, None),
        Err("ProgID required for local connection".to_string())
    );
    assert_eq!(
        request("Alpaca", Some("u"), None, Some("p")),
        Err("Invalid connection type. Use 'alpaca' or 'local'".to_string())
    );
}

#[test]
fn the_answer_of_a_user_picks_a_port() {
    assert_eq!(read_port_choice("0", 3), PortChoice::Cancelled);
    assert_eq!(read_port_choice(" 0\n", 0), PortChoice::Cancelled);
    assert_eq!(read_port_choice("1\n", 3), PortChoice::Selected(0));
    assert_eq!(read_port_choice("3", 3), PortChoice::Selected(2));
    assert_eq!(read_port_choice("+2", 3), PortChoice::Selected(1));
    assert_eq!(read_port_choice("4", 3), PortChoice::Invalid);
    assert_eq!(read_port_choice("1", 0), PortChoice::Invalid);
    assert_eq!(read_port_choice("", 3), PortChoice::Invalid);
    assert_eq!(read_port_choice("two", 3), PortChoice::Invalid);
    assert_eq!(read_port_choice("-1", 3), PortChoice::Invalid);
    assert_eq!(read_port_choice("1.0", 3), PortChoice::Invalid);
    assert_eq!(read_port_choice("99999999999999999999999", 3), PortChoice::Invalid);
}
