use telescope_park_bridge::device_state::{
    DeviceState, ParkStatusResponse, PositionResponse, Reading, StatusResponse, VersionResponse,
};

fn reading(text: &str) -> Reading {
    Reading { text: text.to_string() }
}

fn park(parked: bool, pitch: &str, roll: &str) -> ParkStatusResponse {
    ParkStatusResponse {
        parked,
        current_pitch: reading(pitch),
        current_roll: reading(roll),
        park_pitch: reading("1.0"),
        park_roll: reading("-1.0"),
        tolerance: reading("2.5"),
        pitch_diff: None,
        roll_diff: None,
    }
}

#[test]
fn a_new_record_has_the_disconnected_defaults() {
    let s = DeviceState::with_unique_id("id-1".to_string());
    assert!(!s.connected);
    assert_eq!(s.serial_port, None);
    assert_eq!(s.error_message, None);
    assert_eq!(s.last_update, 0);
    assert_eq!(s.device_name, "Telescope Park Sensor");
    assert_eq!(s.device_version, "Unknown");
    assert_eq!(s.manufacturer, "Corey Smart");
    assert_eq!(s.platform, "nRF52840 XIAO Sense");
    assert_eq!(s.imu, "LSM6DS3TR-C");
    assert_eq!(s.current_pitch, reading("0.0"));
    assert_eq!(s.current_roll, reading("0.0"));
    assert_eq!(s.park_pitch, reading("0.0"));
    assert_eq!(s.park_roll, reading("0.0"));
    assert_eq!(s.position_tolerance, reading("2.0"));
    assert!(!s.is_parked && !s.is_safe && !s.is_calibrated);
    assert!(s.has_builtin_imu && s.storage_available);
    assert_eq!((s.uptime, s.free_heap), (0, 0));
    assert!(!s.ascom_connected);
    assert_eq!(s.unique_id, "id-1");
}

#[test]
fn a_fresh_identifier_is_a_hyphenated_uuid() {
    let a = DeviceState::new();
    let b = DeviceState::default();
    assert_eq!(a.unique_id.len(), 36);
    assert_eq!(b.unique_id.len(), 36);
    assert_ne!(a.unique_id, b.unique_id);
    assert_eq!(a.unique_id.matches('-').count(), 4);
    let mut same = DeviceState::with_unique_id(a.unique_id.clone());
    same.last_update = a.last_update;
    assert_eq!(a, same);
}

#[test]
fn an_error_disconnects_and_is_cleared_again() {
    let mut s = DeviceState::with_unique_id(String::new());
    s.connected = true;
    s.set_error("Sensor fault", 100);
    assert_eq!(s.error_message, Some("Sensor fault".to_string()));
    assert!(!s.connected);
    assert_eq!(s.last_update, 100);
    s.clear_error(101);
    assert_eq!(s.error_message, None);
    assert!(!s.connected);
    assert_eq!(s.last_update, 101);
    s.update_timestamp(7);
    assert_eq!(s.last_update, 7);
}

#[test]
fn recent_means_no_older_than_the_limit() {
    let mut s = DeviceState::with_unique_id(String::new());
    s.update_timestamp(1000);
    assert!(s.is_recent(30, 1000));
    assert!(s.is_recent(30, 1030));
    assert!(!s.is_recent(30, 1031));
    assert!(s.is_recent(0, 1000));
    assert!(!s.is_recent(0, 1001));
    // A record stamped in the future counts as recent.
    assert!(s.is_recent(0, 999));
    assert!(s.is_recent(u64::MAX, u64::MAX));
}

#[test]
fn a_status_payload_sets_flags_park_position_and_counters() {
    let mut s = DeviceState::with_unique_id(String::new());
    s.set_error("old", 1);
    s.uptime = 5;
    s.free_heap = 6;
    s.current_pitch = reading("9.0");
    let status = StatusResponse {
        parked: true,
        calibrated: true,
        park_pitch: reading("1.5"),
        park_roll: reading("-0.5"),
        tolerance: reading("3"),
        uptime: Some(77),
        free_heap: None,
    };
    s.update_from_status(&status, 50);
    assert!(s.is_parked && s.is_safe && s.is_calibrated && s.connected);
    assert_eq!(s.park_pitch, reading("1.5"));
    assert_eq!(s.park_roll, reading("-0.5"));
    assert_eq!(s.position_tolerance, reading("3"));
    assert_eq!(s.uptime, 77);
    assert_eq!(s.free_heap, 6);
    assert_eq!(s.error_message, None);
    assert_eq!(s.last_update, 50);
    assert_eq!(s.current_pitch, reading("9.0"));
}

#[test]
fn a_position_payload_sets_the_orientation_only() {
    let mut s = DeviceState::with_unique_id(String::new());
    s.is_parked = true;
    s.is_safe = true;
    s.update_from_position(
        &PositionResponse { pitch: reading("12.25"), roll: reading("-7"), timestamp: 3 },
        60,
    );
    assert_eq!(s.current_pitch, reading("12.25"));
    assert_eq!(s.current_roll, reading("-7"));
    assert!(s.connected && s.is_parked && s.is_safe);
    assert_eq!(s.park_pitch, reading("0.0"));
    assert_eq!(s.last_update, 60);
}

#[test]
fn parked_and_safe_flip_together_and_orientation_is_of_the_last_payload() {
    let mut s = DeviceState::with_unique_id(String::new());
    s.update_from_park_status(&park(false, "10.0", "20.0"), 1);
    assert!(!s.is_parked && !s.is_safe);
    assert_eq!(s.current_pitch, reading("10.0"));
    assert_eq!(s.current_roll, reading("20.0"));
    s.update_from_park_status(&park(true, "1.1", "-0.9"), 2);
    assert!(s.is_parked && s.is_safe);
    assert_eq!(s.current_pitch, reading("1.1"));
    assert_eq!(s.current_roll, reading("-0.9"));
    assert_eq!(s.park_pitch, reading("1.0"));
    assert_eq!(s.park_roll, reading("-1.0"));
    assert_eq!(s.position_tolerance, reading("2.5"));
    assert_eq!(s.last_update, 2);

    // The record is the same as if the first payload had never arrived.
    let mut once = DeviceState::with_unique_id(String::new());
    once.update_from_park_status(&park(true, "1.1", "-0.9"), 2);
    assert_eq!(s, once);
}

#[test]
fn a_version_payload_sets_the_identity() {
    let mut s = DeviceState::with_unique_id(String::new());
    s.update_from_version(
        &VersionResponse {
            firmware_version: "1.2.3".to_string(),
            device_name: "Park Sensor".to_string(),
            manufacturer: "Acme".to_string(),
            platform: "nRF".to_string(),
            imu: "LSM".to_string(),
            bluetooth_ready: Some(true),
        },
        9,
    );
    assert_eq!(s.device_version, "1.2.3");
    assert_eq!(s.device_name, "Park Sensor");
    assert_eq!(s.manufacturer, "Acme");
    assert_eq!(s.platform, "nRF");
    assert_eq!(s.imu, "LSM");
    assert!(s.connected);
    assert_eq!(s.last_update, 9);
}

#[test]
fn a_reset_keeps_identity_park_position_and_calibration() {
    let mut s = DeviceState::with_unique_id("keep".to_string());
    s.serial_port = Some("COM3".to_string());
    s.update_from_park_status(&park(true, "3", "4"), 5);
    s.is_calibrated = true;
    s.ascom_connected = true;
    s.set_error("x", 6);
    s.reset_to_disconnected(7);
    assert!(!s.connected);
    assert_eq!(s.serial_port, None);
    assert_eq!(s.error_message, None);
    assert_eq!(s.current_pitch, reading("0.0"));
    assert_eq!(s.current_roll, reading("0.0"));
    assert!(!s.is_parked && !s.is_safe);
    assert_eq!(s.last_update, 7);
    assert_eq!(s.park_pitch, reading("1.0"));
    assert_eq!(s.position_tolerance, reading("2.5"));
    assert!(s.is_calibrated && s.ascom_connected);
    assert_eq!(s.unique_id, "keep");
    let again = {
        let mut t = s.duplicate();
        t.reset_to_disconnected(7);
        t
    };
    assert_eq!(again, s);
}

#[test]
fn the_connection_summary_names_error_and_staleness() {
    let mut s = DeviceState::with_unique_id(String::new());
    assert_eq!(s.connection_summary(0), "Disconnected");
    s.set_error("Port busy", 10);
    assert_eq!(s.connection_summary(10), "Disconnected: Port busy");
    s.update_from_position(
        &PositionResponse { pitch: reading("0"), roll: reading("0"), timestamp: 0 },
        100,
    );
    assert_eq!(s.connection_summary(130), "Connected");
    assert_eq!(s.connection_summary(131), "Connected (stale data)");
}

#[test]
fn the_park_summary_names_the_distances() {
    let mut s = DeviceState::with_unique_id(String::new());
    assert_eq!(s.park_status_summary("1.0", "2.0"), "Unknown");
    s.update_from_park_status(&park(true, "1", "1"), 1);
    assert_eq!(s.park_status_summary("1.0", "2.0"), "Parked");
    s.update_from_park_status(&park(false, "1", "1"), 2);
    assert_eq!(s.park_status_summary("1.0", "2.5"), "Not Parked (P:1.0\u{b0}, R:2.5\u{b0})");
}

#[test]
fn safe_is_reported_only_while_connected() {
    let mut s = DeviceState::with_unique_id(String::new());
    s.update_from_park_status(&park(true, "1", "1"), 1);
    assert!(s.reports_safe());
    s.set_error("lost", 2);
    assert!(s.is_safe);
    assert!(!s.reports_safe());
    s.update_from_park_status(&park(false, "1", "1"), 3);
    assert!(!s.reports_safe());
}

#[test]
fn readings_keep_their_text() {
    assert_eq!(Reading::zero().text, "0.0");
    assert_eq!(Reading::from_text("-12.5e3").text, "-12.5e3");
    assert_eq!(Reading::from_text("7").duplicate(), reading("7"));
}
