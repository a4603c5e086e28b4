use telescope_park_bridge::alpaca_server::{
    check_device_number, connected_value_of_lowered, form_transaction_id,
    get_client_transaction_id, next_server_transaction_id, put_connected, AlpacaResponse,
    ConnectedFormData, Fault, TransactionCounter, DEFAULT_BAUD_RATE, INTERFACE_VERSION,
};
use telescope_park_bridge::device_state::DeviceState;
use telescope_park_bridge::port_discovery::{
    describe_port, format_vid_pid, get_device_priority, priority_of_lowered, rank_ports,
    select_auto_port, suggests_sensor_lowered, PortInfo, PortKind,
};
use telescope_park_bridge::telescope_client::{
    direction_of_lowered, discover_local_ascom_telescopes, parse_slew_direction, ConnectedRequest,
    SlewDirection, TelescopeAxis, TelescopeConnection, CLIENT_ID, LOCAL_SERVER_URL,
};

fn fault(error_number: u32, message: &str) -> Fault {
    Fault { error_number, error_message: message.to_string() }
}

fn form(connected: &str) -> Option<ConnectedFormData> {
    Some(ConnectedFormData { client_transaction_id: 12, connected: connected.to_string() })
}

fn port(name: &str, description: &str) -> PortInfo {
    PortInfo {
        name: name.to_string(),
        description: description.to_string(),
        manufacturer: None,
        vid_pid: None,
    }
}

fn names(list: &[&str]) -> Vec<String> {
    list.iter().map(|s| s.to_string()).collect()
}

#[test]
fn a_successful_answer_has_no_error() {
    let r = AlpacaResponse::success(true, 7, 3);
    assert_eq!(
        r,
        AlpacaResponse {
            value: true,
            client_transaction_id: 7,
            server_transaction_id: 3,
            error_number: 0,
            error_message: String::new(),
        }
    );
    assert_eq!(r.into_result(), Ok(true));
}

#[test]
fn a_failed_answer_carries_number_and_message() {
    let r = AlpacaResponse::error(String::new(), 7, 4, 1024, "Invalid device number: 2".to_string());
    assert_eq!(r.error_number, 1024);
    assert_eq!(r.error_message, "Invalid device number: 2");
    assert_eq!(r.client_transaction_id, 7);
    assert_eq!(r.server_transaction_id, 4);
    assert_eq!(r.into_result(), Err("Invalid device number: 2".to_string()));
    assert_eq!(AlpacaResponse::error(5u32, 0, 0, 0, "ignored".to_string()).into_result(), Ok(5));
}

#[test]
fn the_server_numbers_its_answers_from_one() {
    let mut counter = TransactionCounter::new();
    assert_eq!(next_server_transaction_id(&mut counter), 1);
    assert_eq!(next_server_transaction_id(&mut counter), 2);
    assert_eq!(next_server_transaction_id(&mut counter), 3);
    let mut last = TransactionCounter { last: u32::MAX - 1 };
    assert_eq!(next_server_transaction_id(&mut last), u32::MAX);
    assert_eq!(next_server_transaction_id(&mut last), 0);
    assert_eq!(next_server_transaction_id(&mut last), 1);
}

#[test]
fn a_client_without_a_transaction_number_gets_zero() {
    assert_eq!(get_client_transaction_id(None), 0);
    assert_eq!(get_client_transaction_id(Some(0)), 0);
    assert_eq!(get_client_transaction_id(Some(99)), 99);
    assert_eq!(form_transaction_id(&None), 0);
    assert_eq!(form_transaction_id(&form("true")), 12);
    assert_eq!(DEFAULT_BAUD_RATE, 115_200);
    assert_eq!(INTERFACE_VERSION, 1);
}

#[test]
fn only_device_zero_exists() {
    assert_eq!(check_device_number(0), None);
    assert_eq!(check_device_number(1), Some(fault(1024, "Invalid device number: 1")));
    assert_eq!(
        check_device_number(u32::MAX),
        Some(fault(1024, "Invalid device number: 4294967295"))
    );
}

#[test]
fn the_connected_parameter_is_true_or_false() {
    assert_eq!(connected_value_of_lowered("true"), Ok(true));
    assert_eq!(connected_value_of_lowered("false"), Ok(false));
    assert_eq!(connected_value_of_lowered(""), Err(fault(1026, "Empty Connected parameter")));
    assert_eq!(
        connected_value_of_lowered("yes"),
        Err(fault(1027, "Invalid Connected parameter - must be 'true' or 'false'"))
    );
    assert_eq!(
        connected_value_of_lowered("True"),
        Err(fault(1027, "Invalid Connected parameter - must be 'true' or 'false'"))
    );
}

#[test]
fn a_request_to_connect_is_checked_in_order() {
    let mut state = DeviceState::with_unique_id(String::new());
    let untouched = state.duplicate();
    assert_eq!(put_connected(3, &None, &mut state), Err(fault(1024, "Invalid device number: 3")));
    assert_eq!(
        put_connected(3, &form("rubbish"), &mut state),
        Err(fault(1024, "Invalid device number: 3"))
    );
    assert_eq!(put_connected(0, &None, &mut state), Err(fault(1025, "Missing form data")));
    assert_eq!(
        put_connected(0, &form(""), &mut state),
        Err(fault(1026, "Empty Connected parameter"))
    );
    assert_eq!(
        put_connected(0, &form("1"), &mut state),
        Err(fault(1027, "Invalid Connected parameter - must be 'true' or 'false'"))
    );
    assert_eq!(state, untouched);
    assert_eq!(put_connected(0, &form("TRUE"), &mut state), Ok(true));
    assert!(state.ascom_connected);
    assert!(!state.connected);
    assert_eq!(put_connected(0, &form("False"), &mut state), Ok(false));
    assert!(!state.ascom_connected);
}

#[test]
fn usb_identifiers_are_written_in_upper_case_hex() {
    assert_eq!(format_vid_pid(0x2886, 0x8045), "VID:2886 PID:8045");
    assert_eq!(format_vid_pid(0x1a86, 0x7523), "VID:1A86 PID:7523");
    assert_eq!(format_vid_pid(0, 0xf), "VID:0000 PID:000F");
}

#[test]
fn ports_are_described_by_vendor_chip_or_kind() {
    let usb = |vid: u16, pid: u16| {
        describe_port(
            "COM9".to_string(),
            PortKind::Usb { vid, pid, manufacturer: Some("Maker".to_string()) },
        )
    };
    assert_eq!(usb(0x2886, 1).description, "Seeed Studio XIAO nRF52840 (or compatible)");
    assert_eq!(usb(0x239a, 1).description, "Adafruit/Nordic nRF52840 (or compatible)");
    assert_eq!(usb(0x1915, 0x521f).description, "Nordic nRF52840 Development Kit");
    assert_eq!(usb(0x1915, 0x5220).description, "USB Serial Device - VID:1915 PID:5220");
    assert_eq!(usb(0x1a86, 0x7523).description, "USB Serial Device (CH340) - VID:1A86 PID:7523");
    assert_eq!(usb(0x10c4, 0xea60).description, "USB Serial Device (CP210x) - VID:10C4 PID:EA60");
    assert_eq!(usb(0x0403, 0x6001).description, "USB Serial Device (FTDI) - VID:0403 PID:6001");
    let seeed = usb(0x2886, 0x8045);
    assert_eq!(seeed.name, "COM9");
    assert_eq!(seeed.manufacturer, Some("Maker".to_string()));
    assert_eq!(seeed.vid_pid, Some("VID:2886 PID:8045".to_string()));
    assert_eq!(
        describe_port("b".to_string(), PortKind::Bluetooth),
        port("b", "Bluetooth Serial Port")
    );
    assert_eq!(describe_port("p".to_string(), PortKind::Pci), port("p", "PCI Serial Port"));
    assert_eq!(
        describe_port("u".to_string(), PortKind::Unknown),
        port("u", "Unknown Serial Device")
    );
}

#[test]
fn descriptions_are_ranked_by_the_likeliest_device() {
    assert_eq!(priority_of_lowered("seeed studio xiao nrf52840 (or compatible)"), 100);
    assert_eq!(priority_of_lowered("some nrf52840 board"), 100);
    assert_eq!(priority_of_lowered("nordic development kit"), 90);
    assert_eq!(priority_of_lowered("seeed"), 90);
    assert_eq!(priority_of_lowered("adafruit feather"), 80);
    assert_eq!(priority_of_lowered("usb serial device (ch340)"), 50);
    assert_eq!(priority_of_lowered("cp210x bridge"), 50);
    assert_eq!(priority_of_lowered("ftdi"), 40);
    assert_eq!(priority_of_lowered("bluetooth serial port"), 10);
    assert_eq!(priority_of_lowered("pci serial port"), 0);
    assert_eq!(priority_of_lowered(""), 0);
    // The rank is taken of the lower-case form.
    assert_eq!(priority_of_lowered("XIAO"), 0);
    assert_eq!(get_device_priority("Seeed Studio XIAO nRF52840 (or compatible)"), 100);
    assert_eq!(get_device_priority("Adafruit/Nordic nRF52840 (or compatible)"), 100);
    assert_eq!(get_device_priority("Nordic nRF52840 Development Kit"), 100);
    assert_eq!(get_device_priority("USB Serial Device (FTDI) - VID:0403 PID:6001"), 40);
    assert_eq!(get_device_priority("Bluetooth Serial Port"), 10);
    assert_eq!(get_device_priority("ADAFRUIT"), 80);
}

#[test]
fn ports_are_ordered_by_rank_and_keep_their_order_within_a_rank() {
    let ports = vec![
        port("a", "Unknown Serial Device"),
        port("b", "Bluetooth Serial Port"),
        port("c", "USB Serial Device (FTDI) - x"),
        port("d", "Seeed Studio XIAO"),
        port("e", "PCI Serial Port"),
        port("f", "usb serial device (ch340)"),
        port("g", "NRF52840"),
        port("h", "USB Serial Device (CP210x)"),
    ];
    let ranked: Vec<String> = rank_ports(ports).into_iter().map(|p| p.name).collect();
    assert_eq!(ranked, vec!["d", "g", "f", "h", "c", "b", "a", "e"]);
    assert!(rank_ports(Vec::new()).is_empty());
}

#[test]
fn the_port_is_chosen_by_description_or_by_position() {
    assert!(suggests_sensor_lowered("usb serial device"));
    assert!(suggests_sensor_lowered("a serial port"));
    assert!(suggests_sensor_lowered("xiao"));
    assert!(suggests_sensor_lowered("nrf52"));
    assert!(!suggests_sensor_lowered("bluetooth"));
    assert!(!suggests_sensor_lowered("USB"));
    assert_eq!(select_auto_port(&Vec::new()), None);
    let ports = vec![port("a", "Modem"), port("b", "XIAO board"), port("c", "USB thing")];
    assert_eq!(select_auto_port(&ports), Some("b".to_string()));
    let none = vec![port("a", "Modem"), port("b", "Printer")];
    assert_eq!(select_auto_port(&none), Some("a".to_string()));
}

#[test]
fn directions_are_read_whatever_their_case() {
    assert_eq!(direction_of_lowered("north"), Some(SlewDirection::North));
    assert_eq!(direction_of_lowered("south"), Some(SlewDirection::South));
    assert_eq!(direction_of_lowered("east"), Some(SlewDirection::East));
    assert_eq!(direction_of_lowered("west"), Some(SlewDirection::West));
    assert_eq!(direction_of_lowered("North"), None);
    assert_eq!(direction_of_lowered("up"), None);
    assert_eq!(parse_slew_direction("NORTH"), Some(SlewDirection::North));
    assert_eq!(parse_slew_direction("West"), Some(SlewDirection::West));
    assert_eq!(parse_slew_direction(" west"), None);
    assert_eq!(parse_slew_direction(""), None);
}

#[test]
fn the_plain_types_of_the_mount_client() {
    assert_eq!(CLIENT_ID, 42);
    assert_eq!(LOCAL_SERVER_URL, "http://localhost:11111");
    assert_ne!(TelescopeAxis::Primary, TelescopeAxis::Secondary);
    let request = ConnectedRequest { connected: true, client_transaction_id: CLIENT_ID };
    assert_eq!(request, ConnectedRequest { connected: true, client_transaction_id: 42 });
    let alpaca = TelescopeConnection::Alpaca { url: "http://mount".to_string(), device_number: 1 };
    assert_ne!(alpaca, TelescopeConnection::Local { prog_id: "ASCOM.Sim".to_string() });
}

#[test]
fn drivers_of_both_registry_views_are_listed_once() {
    assert!(discover_local_ascom_telescopes(Vec::new(), Vec::new()).is_empty());
    assert_eq!(
        discover_local_ascom_telescopes(names(&["A", "B"]), names(&["B", "C", "A", "C", "D"])),
        names(&["A", "B", "C", "D"])
    );
    // What the first view lists twice stays twice.
    assert_eq!(
        discover_local_ascom_telescopes(names(&["A", "A"]), names(&["a"])),
        names(&["A", "A", "a"])
    );
    assert_eq!(discover_local_ascom_telescopes(Vec::new(), names(&["x", "x"])), names(&["x"]));
}
