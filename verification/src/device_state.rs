//! The last-known telemetry and connection status of the sensor.
//!
//! The record is plain data. Whoever shares it between tasks guards it with a
//! lock and holds that lock for the whole of one call: each `update_from_*`
//! operation writes one group of fields from one message.
//!
//! Angles and the tolerance are kept as [`Reading`]s, the decimal text of the
//! number that the device sent. Arithmetic on them is left to the caller.

use vstd::prelude::*;

verus! {

/// The view of an optional text.
pub open spec fn text_view(text: Option<String>) -> Option<Seq<char>> {
    match text {
        Some(t) => Some(t@),
        None => None,
    }
}

/// A number as the device reported it, in decimal notation.
#[derive(Debug, Clone, PartialEq, Eq)]
pub struct Reading {
    pub text: String,
}

impl View for Reading {
    type V = Seq<char>;

    open spec fn view(&self) -> Seq<char> {
        self.text@
    }
}

impl Reading {
    /// The reading of a sensor at rest.
    pub fn zero() -> (r: Reading)
        ensures
            r@ == "0.0"@,
    {
        Reading { text: String::from_str("0.0") }
    }

    /// The reading with the given decimal text.
    pub fn from_text(text: &str) -> (r: Reading)
        ensures
            r@ == text@,
    {
        Reading { text: String::from_str(text) }
    }

    /// A copy of this reading.
    pub fn duplicate(&self) -> (r: Reading)
        ensures
            r@ == self@,
    {
        Reading { text: self.text.clone() }
    }
}

/// The payload that answers a status query.
#[derive(Debug, Clone, PartialEq, Eq)]
pub struct StatusResponse {
    pub parked: bool,
    pub calibrated: bool,
    pub park_pitch: Reading,
    pub park_roll: Reading,
    pub tolerance: Reading,
    pub uptime: Option<u64>,
    pub free_heap: Option<u64>,
}

/// The mathematical value of a [`StatusResponse`].
pub ghost struct StatusResponseView {
    pub parked: bool,
    pub calibrated: bool,
    pub park_pitch: Seq<char>,
    pub park_roll: Seq<char>,
    pub tolerance: Seq<char>,
    pub uptime: Option<u64>,
    pub free_heap: Option<u64>,
}

impl View for StatusResponse {
    type V = StatusResponseView;

    open spec fn view(&self) -> StatusResponseView {
        StatusResponseView {
            parked: self.parked,
            calibrated: self.calibrated,
            park_pitch: self.park_pitch@,
            park_roll: self.park_roll@,
            tolerance: self.tolerance@,
            uptime: self.uptime,
            free_heap: self.free_heap,
        }
    }
}

/// The payload that answers a position query.
#[derive(Debug, Clone, PartialEq, Eq)]
pub struct PositionResponse {
    pub pitch: Reading,
    pub roll: Reading,
    pub timestamp: u64,
}

/// The mathematical value of a [`PositionResponse`].
pub ghost struct PositionResponseView {
    pub pitch: Seq<char>,
    pub roll: Seq<char>,
    pub timestamp: u64,
}

impl View for PositionResponse {
    type V = PositionResponseView;

    open spec fn view(&self) -> PositionResponseView {
        PositionResponseView {
            pitch: self.pitch@,
            roll: self.roll@,
            timestamp: self.timestamp,
        }
    }
}

/// The payload that answers a park-status query.
#[derive(Debug, Clone, PartialEq, Eq)]
pub struct ParkStatusResponse {
    pub parked: bool,
    pub current_pitch: Reading,
    pub current_roll: Reading,
    pub park_pitch: Reading,
    pub park_roll: Reading,
    pub tolerance: Reading,
    pub pitch_diff: Option<Reading>,
    pub roll_diff: Option<Reading>,
}

/// The view of an optional reading.
pub open spec fn reading_view(reading: Option<Reading>) -> Option<Seq<char>> {
    match reading {
        Some(r) => Some(r@),
        None => None,
    }
}

/// The mathematical value of a [`ParkStatusResponse`].
pub ghost struct ParkStatusResponseView {
    pub parked: bool,
    pub current_pitch: Seq<char>,
    pub current_roll: Seq<char>,
    pub park_pitch: Seq<char>,
    pub park_roll: Seq<char>,
    pub tolerance: Seq<char>,
    pub pitch_diff: Option<Seq<char>>,
    pub roll_diff: Option<Seq<char>>,
}

impl View for ParkStatusResponse {
    type V = ParkStatusResponseView;

    open spec fn view(&self) -> ParkStatusResponseView {
        ParkStatusResponseView {
            parked: self.parked,
            current_pitch: self.current_pitch@,
            current_roll: self.current_roll@,
            park_pitch: self.park_pitch@,
            park_roll: self.park_roll@,
            tolerance: self.tolerance@,
            pitch_diff: reading_view(self.pitch_diff),
            roll_diff: reading_view(self.roll_diff),
        }
    }
}

/// The payload that answers a version query.
#[derive(Debug, Clone, PartialEq, Eq)]
pub struct VersionResponse {
    pub firmware_version: String,
    pub device_name: String,
    pub manufacturer: String,
    pub platform: String,
    pub imu: String,
    pub bluetooth_ready: Option<bool>,
}

/// The mathematical value of a [`VersionResponse`].
pub ghost struct VersionResponseView {
    pub firmware_version: Seq<char>,
    pub device_name: Seq<char>,
    pub manufacturer: Seq<char>,
    pub platform: Seq<char>,
    pub imu: Seq<char>,
    pub bluetooth_ready: Option<bool>,
}

impl View for VersionResponse {
    type V = VersionResponseView;

    open spec fn view(&self) -> VersionResponseView {
        VersionResponseView {
            firmware_version: self.firmware_version@,
            device_name: self.device_name@,
            manufacturer: self.manufacturer@,
            platform: self.platform@,
            imu: self.imu@,
            bluetooth_ready: self.bluetooth_ready,
        }
    }
}

/// What is known of the sensor and of the connection to it.
#[derive(Debug, Clone, PartialEq, Eq)]
pub struct DeviceState {
    pub connected: bool,
    pub serial_port: Option<String>,
    pub error_message: Option<String>,
    /// Seconds since the Unix epoch at the last change.
    pub last_update: u64,
    pub device_name: String,
    pub device_version: String,
    pub manufacturer: String,
    pub platform: String,
    pub imu: String,
    pub current_pitch: Reading,
    pub current_roll: Reading,
    pub park_pitch: Reading,
    pub park_roll: Reading,
    pub position_tolerance: Reading,
    pub is_parked: bool,
    /// What a safety monitor reads; always equal to `is_parked`.
    pub is_safe: bool,
    pub is_calibrated: bool,
    pub has_builtin_imu: bool,
    pub storage_available: bool,
    pub uptime: u64,
    pub free_heap: u64,
    /// Whether a remote client has declared itself connected; independent of
    /// the hardware.
    pub ascom_connected: bool,
    pub unique_id: String,
}

/// The mathematical value of a [`DeviceState`].
pub ghost struct DeviceStateView {
    pub connected: bool,
    pub serial_port: Option<Seq<char>>,
    pub error_message: Option<Seq<char>>,
    pub last_update: u64,
    pub device_name: Seq<char>,
    pub device_version: Seq<char>,
    pub manufacturer: Seq<char>,
    pub platform: Seq<char>,
    pub imu: Seq<char>,
    pub current_pitch: Seq<char>,
    pub current_roll: Seq<char>,
    pub park_pitch: Seq<char>,
    pub park_roll: Seq<char>,
    pub position_tolerance: Seq<char>,
    pub is_parked: bool,
    pub is_safe: bool,
    pub is_calibrated: bool,
    pub has_builtin_imu: bool,
    pub storage_available: bool,
    pub uptime: u64,
    pub free_heap: u64,
    pub ascom_connected: bool,
    pub unique_id: Seq<char>,
}

impl View for DeviceState {
    type V = DeviceStateView;

    open spec fn view(&self) -> DeviceStateView {
        DeviceStateView {
            connected: self.connected,
            serial_port: text_view(self.serial_port),
            error_message: text_view(self.error_message),
            last_update: self.last_update,
            device_name: self.device_name@,
            device_version: self.device_version@,
            manufacturer: self.manufacturer@,
            platform: self.platform@,
            imu: self.imu@,
            current_pitch: self.current_pitch@,
            current_roll: self.current_roll@,
            park_pitch: self.park_pitch@,
            park_roll: self.park_roll@,
            position_tolerance: self.position_tolerance@,
            is_parked: self.is_parked,
            is_safe: self.is_safe,
            is_calibrated: self.is_calibrated,
            has_builtin_imu: self.has_builtin_imu,
            storage_available: self.storage_available,
            uptime: self.uptime,
            free_heap: self.free_heap,
            ascom_connected: self.ascom_connected,
            unique_id: self.unique_id@,
        }
    }
}

/// The age, in seconds, beyond which telemetry counts as stale.
pub const STALE_AFTER_SECONDS: u64 = 30;

impl DeviceStateView {
    /// The record of a process that has not yet talked to a device.
    pub open spec fn initial(unique_id: Seq<char>) -> DeviceStateView {
        DeviceStateView {
            connected: false,
            serial_port: None,
            error_message: None,
            last_update: 0,
            device_name: "Telescope Park Sensor"@,
            device_version: "Unknown"@,
            manufacturer: "Corey Smart"@,
            platform: "nRF52840 XIAO Sense"@,
            imu: "LSM6DS3TR-C"@,
            current_pitch: "0.0"@,
            current_roll: "0.0"@,
            park_pitch: "0.0"@,
            park_roll: "0.0"@,
            position_tolerance: "2.0"@,
            is_parked: false,
            is_safe: false,
            is_calibrated: false,
            has_builtin_imu: true,
            storage_available: true,
            uptime: 0,
            free_heap: 0,
            ascom_connected: false,
            unique_id,
        }
    }

    /// The safety flag mirrors the parked flag.
    pub open spec fn consistent(self) -> bool {
        self.is_safe == self.is_parked
    }

    /// The connection fields and the live telemetry are at their disconnected
    /// defaults.
    pub open spec fn is_disconnected(self) -> bool {
        &&& !self.connected
        &&& self.serial_port is None
        &&& self.error_message is None
        &&& self.current_pitch == "0.0"@
        &&& self.current_roll == "0.0"@
        &&& !self.is_parked
        &&& !self.is_safe
    }

    /// The record with its timestamp set to `now`.
    pub open spec fn stamped(self, now: u64) -> DeviceStateView {
        DeviceStateView { last_update: now, ..self }
    }

    /// The record after a failure was noted at `now`.
    pub open spec fn with_error(self, error: Seq<char>, now: u64) -> DeviceStateView {
        DeviceStateView { error_message: Some(error), connected: false, last_update: now, ..self }
    }

    /// The record after the device reported an error at `now`: the record
    /// shows the message, and nothing else changes. An error of the device
    /// does not end the connection.
    pub open spec fn with_device_error(self, message: Seq<char>, now: u64) -> DeviceStateView {
        DeviceStateView { error_message: Some(message), last_update: now, ..self }
    }

    /// The record after the last failure was forgotten at `now`.
    pub open spec fn without_error(self, now: u64) -> DeviceStateView {
        DeviceStateView { error_message: None, last_update: now, ..self }
    }

    /// The record after the session ended at `now`.
    pub open spec fn disconnected(self, now: u64) -> DeviceStateView {
        DeviceStateView {
            connected: false,
            serial_port: None,
            error_message: None,
            current_pitch: "0.0"@,
            current_roll: "0.0"@,
            is_parked: false,
            is_safe: false,
            last_update: now,
            ..self
        }
    }

    /// Whether the record changed no more than `max_age_seconds` before `now`.
    pub open spec fn recent(self, max_age_seconds: u64, now: u64) -> bool {
        now <= self.last_update || now - self.last_update <= max_age_seconds
    }

    /// The record after a status payload was applied at `now`.
    pub open spec fn after_status(self, status: StatusResponseView, now: u64) -> DeviceStateView {
        DeviceStateView {
            is_parked: status.parked,
            is_safe: status.parked,
            is_calibrated: status.calibrated,
            park_pitch: status.park_pitch,
            park_roll: status.park_roll,
            position_tolerance: status.tolerance,
            uptime: match status.uptime {
                Some(uptime) => uptime,
                None => self.uptime,
            },
            free_heap: match status.free_heap {
                Some(free_heap) => free_heap,
                None => self.free_heap,
            },
            connected: true,
            error_message: None,
            last_update: now,
            ..self
        }
    }

    /// The record after a position payload was applied at `now`.
    pub open spec fn after_position(self, position: PositionResponseView, now: u64)
        -> DeviceStateView {
        DeviceStateView {
            current_pitch: position.pitch,
            current_roll: position.roll,
            connected: true,
            error_message: None,
            last_update: now,
            ..self
        }
    }

    /// The record after a park-status payload was applied at `now`.
    pub open spec fn after_park_status(self, park: ParkStatusResponseView, now: u64)
        -> DeviceStateView {
        DeviceStateView {
            is_parked: park.parked,
            is_safe: park.parked,
            current_pitch: park.current_pitch,
            current_roll: park.current_roll,
            park_pitch: park.park_pitch,
            park_roll: park.park_roll,
            position_tolerance: park.tolerance,
            connected: true,
            error_message: None,
            last_update: now,
            ..self
        }
    }

    /// The record after a version payload was applied at `now`.
    pub open spec fn after_version(self, version: VersionResponseView, now: u64)
        -> DeviceStateView {
        DeviceStateView {
            device_version: version.firmware_version,
            device_name: version.device_name,
            manufacturer: version.manufacturer,
            platform: version.platform,
            imu: version.imu,
            connected: true,
            error_message: None,
            last_update: now,
            ..self
        }
    }

    /// The one-line description of the connection, as seen at `now`.
    pub open spec fn connection_summary(self, now: u64) -> Seq<char> {
        if !self.connected {
            match self.error_message {
                Some(error) => "Disconnected: "@ + error,
                None => "Disconnected"@,
            }
        } else if self.recent(STALE_AFTER_SECONDS, now) {
            "Connected"@
        } else {
            "Connected (stale data)"@
        }
    }

    /// The one-line description of the park status, given the distance from
    /// the park position already formatted.
    pub open spec fn park_status_summary(self, pitch_diff: Seq<char>, roll_diff: Seq<char>) -> Seq<
        char,
    > {
        if !self.connected {
            "Unknown"@
        } else if self.is_parked {
            "Parked"@
        } else {
            "Not Parked (P:"@ + pitch_diff + "\u{b0}, R:"@ + roll_diff + "\u{b0})"@
        }
    }

    /// What a safety monitor reports: safe only while connected and parked.
    pub open spec fn reports_safe(self) -> bool {
        self.connected && self.is_safe
    }
}

/// Telemetry is applied whole. After two park-status payloads in a row, the
/// parked flag, the safe flag and the orientation pair all come from the
/// second payload: the record is the same as if the first had never arrived,
/// and nothing of the first is mixed in. A reader who sees the record between
/// two calls sees the fields of one payload.
pub proof fn law_park_status_is_applied_whole(
    state: DeviceStateView,
    first: ParkStatusResponseView,
    second: ParkStatusResponseView,
    first_at: u64,
    second_at: u64,
)
    ensures
        state.after_park_status(first, first_at).after_park_status(second, second_at)
            == state.after_park_status(second, second_at),
        state.after_park_status(second, second_at).is_parked == second.parked,
        state.after_park_status(second, second_at).is_safe == second.parked,
        state.after_park_status(second, second_at).current_pitch == second.current_pitch,
        state.after_park_status(second, second_at).current_roll == second.current_roll,
        state.after_park_status(second, second_at).consistent(),
{
}

/// A record that telemetry has marked connected carries the time of that
/// telemetry: every payload that sets the connected flag stamps the record.
pub proof fn law_telemetry_stamps_the_record(
    state: DeviceStateView,
    status: StatusResponseView,
    position: PositionResponseView,
    park: ParkStatusResponseView,
    version: VersionResponseView,
    now: u64,
)
    ensures
        state.after_status(status, now).connected && state.after_status(status, now).last_update
            == now,
        state.after_position(position, now).connected && state.after_position(
            position,
            now,
        ).last_update == now,
        state.after_park_status(park, now).connected && state.after_park_status(
            park,
            now,
        ).last_update == now,
        state.after_version(version, now).connected && state.after_version(
            version,
            now,
        ).last_update == now,
        state.after_status(status, now).recent(0, now),
        !state.disconnected(now).connected,
{
}

/// Calls `uuid::Uuid::new_v4` and writes the identifier in its hyphenated
/// form. The identifier is random; only its length is claimed.
#[verifier::external_body]
fn fresh_unique_id() -> (r: String)
    ensures
        r@.len() == 36,
{
    uuid::Uuid::new_v4().to_string()
}

impl Default for DeviceState {
    fn default() -> (r: DeviceState)
        ensures
            r@ == DeviceStateView::initial(r@.unique_id),
            r@.unique_id.len() == 36,
    {
        DeviceState::new()
    }
}

impl DeviceState {
    /// The record of a process that has not yet talked to a device, under the
    /// given identifier.
    pub fn with_unique_id(unique_id: String) -> (r: DeviceState)
        ensures
            r@ == DeviceStateView::initial(unique_id@),
    {
        DeviceState {
            connected: false,
            serial_port: None,
            error_message: None,
            last_update: 0,
            device_name: String::from_str("Telescope Park Sensor"),
            device_version: String::from_str("Unknown"),
            manufacturer: String::from_str("Corey Smart"),
            platform: String::from_str("nRF52840 XIAO Sense"),
            imu: String::from_str("LSM6DS3TR-C"),
            current_pitch: Reading::zero(),
            current_roll: Reading::zero(),
            park_pitch: Reading::zero(),
            park_roll: Reading::zero(),
            position_tolerance: Reading::from_text("2.0"),
            is_parked: false,
            is_safe: false,
            is_calibrated: false,
            has_builtin_imu: true,
            storage_available: true,
            uptime: 0,
            free_heap: 0,
            ascom_connected: false,
            unique_id,
        }
    }

    /// The record of a process that has not yet talked to a device, under a
    /// fresh random identifier.
    pub fn new() -> (r: DeviceState)
        ensures
            r@ == DeviceStateView::initial(r@.unique_id),
            r@.unique_id.len() == 36,
    {
        DeviceState::with_unique_id(fresh_unique_id())
    }

    /// Notes that the record changed at `now`, in seconds since the Unix epoch.
    pub fn update_timestamp(&mut self, now: u64)
        ensures
            final(self)@ == old(self)@.stamped(now),
    {
        self.last_update = now;
    }

    /// Notes an error that the device reported: the record shows the message.
    /// The connection flag and every other field stay as they are.
    pub fn note_device_error(&mut self, message: &str, now: u64)
        ensures
            final(self)@ == old(self)@.with_device_error(message@, now),
            old(self)@.consistent() ==> final(self)@.consistent(),
    {
        self.error_message = Some(String::from_str(message));
        self.update_timestamp(now);
    }

    /// Notes a failure of the connection: the record shows the text and is no
    /// longer connected.
    pub fn set_error(&mut self, error: &str, now: u64)
        ensures
            final(self)@ == old(self)@.with_error(error@, now),
    {
        self.error_message = Some(String::from_str(error));
        self.connected = false;
        self.update_timestamp(now);
    }

    /// Forgets the last failure.
    pub fn clear_error(&mut self, now: u64)
        ensures
            final(self)@ == old(self)@.without_error(now),
    {
        self.error_message = None;
        self.update_timestamp(now);
    }

    /// Puts the connection fields and the live telemetry back to their
    /// disconnected defaults. The device identity, the park position and the
    /// calibration flag stay.
    pub fn reset_to_disconnected(&mut self, now: u64)
        ensures
            final(self)@ == old(self)@.disconnected(now),
            final(self)@.is_disconnected(),
            final(self)@.consistent(),
    {
        self.connected = false;
        self.serial_port = None;
        self.error_message = None;
        self.current_pitch = Reading::zero();
        self.current_roll = Reading::zero();
        self.is_parked = false;
        self.is_safe = false;
        self.update_timestamp(now);
    }

    /// Whether the record changed no more than `max_age_seconds` before `now`.
    /// A record stamped after `now` counts as recent.
    pub fn is_recent(&self, max_age_seconds: u64, now: u64) -> (r: bool)
        ensures
            r == self@.recent(max_age_seconds, now),
    {
        if now <= self.last_update {
            true
        } else {
            now - self.last_update <= max_age_seconds
        }
    }

    /// Applies a status payload: park and calibration flags, park position and
    /// tolerance, and the counters that the payload carries.
    pub fn update_from_status(&mut self, status: &StatusResponse, now: u64)
        ensures
            final(self)@ == old(self)@.after_status(status@, now),
            final(self)@.consistent(),
    {
        self.is_parked = status.parked;
        self.is_safe = status.parked;
        self.is_calibrated = status.calibrated;
        self.park_pitch = status.park_pitch.duplicate();
        self.park_roll = status.park_roll.duplicate();
        self.position_tolerance = status.tolerance.duplicate();
        if let Some(uptime) = status.uptime {
            self.uptime = uptime;
        }
        if let Some(free_heap) = status.free_heap {
            self.free_heap = free_heap;
        }
        self.connected = true;
        self.clear_error(now);
    }

    /// Applies a position payload: the orientation pair.
    pub fn update_from_position(&mut self, position: &PositionResponse, now: u64)
        ensures
            final(self)@ == old(self)@.after_position(position@, now),
            old(self)@.consistent() ==> final(self)@.consistent(),
    {
        self.current_pitch = position.pitch.duplicate();
        self.current_roll = position.roll.duplicate();
        self.connected = true;
        self.clear_error(now);
    }

    /// Applies a park-status payload: the parked and safe flags, the
    /// orientation pair, the park position and the tolerance, all from this
    /// one payload.
    pub fn update_from_park_status(&mut self, park_status: &ParkStatusResponse, now: u64)
        ensures
            final(self)@ == old(self)@.after_park_status(park_status@, now),
            final(self)@.consistent(),
    {
        self.is_parked = park_status.parked;
        self.is_safe = park_status.parked;
        self.current_pitch = park_status.current_pitch.duplicate();
        self.current_roll = park_status.current_roll.duplicate();
        self.park_pitch = park_status.park_pitch.duplicate();
        self.park_roll = park_status.park_roll.duplicate();
        self.position_tolerance = park_status.tolerance.duplicate();
        self.connected = true;
        self.clear_error(now);
    }

    /// Applies a version payload: the identity of the device.
    pub fn update_from_version(&mut self, version: &VersionResponse, now: u64)
        ensures
            final(self)@ == old(self)@.after_version(version@, now),
            old(self)@.consistent() ==> final(self)@.consistent(),
    {
        self.device_version = version.firmware_version.clone();
        self.device_name = version.device_name.clone();
        self.manufacturer = version.manufacturer.clone();
        self.platform = version.platform.clone();
        self.imu = version.imu.clone();
        self.connected = true;
        self.clear_error(now);
    }

    /// The one-line description of the connection, as seen at `now`.
    pub fn connection_summary(&self, now: u64) -> (r: String)
        ensures
            r@ == self@.connection_summary(now),
    {
        if !self.connected {
            match &self.error_message {
                Some(error) => String::from_str("Disconnected: ").concat(error.as_str()),
                None => String::from_str("Disconnected"),
            }
        } else if self.is_recent(STALE_AFTER_SECONDS, now) {
            String::from_str("Connected")
        } else {
            String::from_str("Connected (stale data)")
        }
    }

    /// The one-line description of the park status. The two distances from the
    /// park position come already formatted, to one decimal place.
    pub fn park_status_summary(&self, pitch_diff: &str, roll_diff: &str) -> (r: String)
        ensures
            r@ == self@.park_status_summary(pitch_diff@, roll_diff@),
    {
        if !self.connected {
            String::from_str("Unknown")
        } else if self.is_parked {
            String::from_str("Parked")
        } else {
            String::from_str("Not Parked (P:").concat(pitch_diff).concat("\u{b0}, R:").concat(
                roll_diff,
            ).concat("\u{b0})")
        }
    }

    /// What a safety monitor reports: safe only while connected and parked.
    pub fn reports_safe(&self) -> (r: bool)
        ensures
            r == self@.reports_safe(),
    {
        if self.connected {
            self.is_safe
        } else {
            false
        }
    }

    /// A copy of this record.
    pub fn duplicate(&self) -> (r: DeviceState)
        ensures
            r@ == self@,
    {
        DeviceState {
            connected: self.connected,
            serial_port: match &self.serial_port {
                Some(port) => Some(port.clone()),
                None => None,
            },
            error_message: match &self.error_message {
                Some(error) => Some(error.clone()),
                None => None,
            },
            last_update: self.last_update,
            device_name: self.device_name.clone(),
            device_version: self.device_version.clone(),
            manufacturer: self.manufacturer.clone(),
            platform: self.platform.clone(),
            imu: self.imu.clone(),
            current_pitch: self.current_pitch.duplicate(),
            current_roll: self.current_roll.duplicate(),
            park_pitch: self.park_pitch.duplicate(),
            park_roll: self.park_roll.duplicate(),
            position_tolerance: self.position_tolerance.duplicate(),
            is_parked: self.is_parked,
            is_safe: self.is_safe,
            is_calibrated: self.is_calibrated,
            has_builtin_imu: self.has_builtin_imu,
            storage_available: self.storage_available,
            uptime: self.uptime,
            free_heap: self.free_heap,
            ascom_connected: self.ascom_connected,
            unique_id: self.unique_id.clone(),
        }
    }
}

} // verus!
