//! The wire codec: framing of outbound commands and classification of inbound
//! lines.
//!
//! Outbound, a command token is written as `<TOKEN>` and a line feed. Inbound,
//! a line is either text for humans (start-up banners, debug output), which is
//! set aside, or one JSON object with a `status` of `ack`, `ok` or `error`.
//! The device does not tag the payload of an `ok` message with its kind, so
//! the payload is matched against the known shapes in a fixed order and the
//! first that fits decides.

use vstd::prelude::*;
use crate::text::{text_starts_with, same_text};
use crate::json::{
    Field,
    FieldView,
    Json,
    json_of,
    json_parse,
    parse_value,
    member,
    member_field,
    is_null,
};
use crate::device_state::{
    Reading,
    reading_view,
    text_view,
    StatusResponse,
    StatusResponseView,
    PositionResponse,
    PositionResponseView,
    ParkStatusResponse,
    ParkStatusResponseView,
};

verus! {

/// The text that frames `token` for the wire.
pub open spec fn framed(token: Seq<char>) -> Seq<char> {
    seq!['<'] + token + seq!['>', '\n']
}

/// Frames a command token for the wire, as text. The token is not examined.
pub fn frame_command(token: &str) -> (r: String)
    ensures
        r@ == framed(token@),
{
    let r = String::from_str("<").concat(token).concat(">\n");
    proof {
        reveal_strlit("<");
        reveal_strlit(">\n");
        assert(r@ =~= framed(token@));
    }
    r
}

/// Frames a command token for the wire: the bytes to write, in UTF-8.
pub fn encode_command(token: &str) -> (r: Vec<u8>)
    ensures
        r@ == vstd::utf8::encode_utf8(framed(token@)),
{
    let line = frame_command(token);
    line.as_str().as_bytes_vec()
}

/// What the payload of an `ok` message holds under the keys that the bridge
/// reads. A payload that is no object has every field absent.
#[derive(Debug, Clone, PartialEq, Eq)]
pub struct Payload {
    pub parked: Field,
    pub calibrated: Field,
    pub park_pitch: Field,
    pub park_roll: Field,
    pub tolerance: Field,
    pub uptime: Field,
    pub free_heap: Field,
    pub pitch: Field,
    pub roll: Field,
    pub timestamp: Field,
    pub current_pitch: Field,
    pub current_roll: Field,
    pub pitch_diff: Field,
    pub roll_diff: Field,
    pub message: Field,
}

/// The mathematical value of a [`Payload`].
pub ghost struct PayloadView {
    pub parked: FieldView,
    pub calibrated: FieldView,
    pub park_pitch: FieldView,
    pub park_roll: FieldView,
    pub tolerance: FieldView,
    pub uptime: FieldView,
    pub free_heap: FieldView,
    pub pitch: FieldView,
    pub roll: FieldView,
    pub timestamp: FieldView,
    pub current_pitch: FieldView,
    pub current_roll: FieldView,
    pub pitch_diff: FieldView,
    pub roll_diff: FieldView,
    pub message: FieldView,
}

impl View for Payload {
    type V = PayloadView;

    open spec fn view(&self) -> PayloadView {
        PayloadView {
            parked: self.parked@,
            calibrated: self.calibrated@,
            park_pitch: self.park_pitch@,
            park_roll: self.park_roll@,
            tolerance: self.tolerance@,
            uptime: self.uptime@,
            free_heap: self.free_heap@,
            pitch: self.pitch@,
            roll: self.roll@,
            timestamp: self.timestamp@,
            current_pitch: self.current_pitch@,
            current_roll: self.current_roll@,
            pitch_diff: self.pitch_diff@,
            roll_diff: self.roll_diff@,
            message: self.message@,
        }
    }
}

impl PayloadView {
    /// The payload that a JSON value stands for.
    pub open spec fn of(json: Json) -> PayloadView {
        PayloadView {
            parked: FieldView::of(json.member("parked"@)),
            calibrated: FieldView::of(json.member("calibrated"@)),
            park_pitch: FieldView::of(json.member("parkPitch"@)),
            park_roll: FieldView::of(json.member("parkRoll"@)),
            tolerance: FieldView::of(json.member("tolerance"@)),
            uptime: FieldView::of(json.member("uptime"@)),
            free_heap: FieldView::of(json.member("freeHeap"@)),
            pitch: FieldView::of(json.member("pitch"@)),
            roll: FieldView::of(json.member("roll"@)),
            timestamp: FieldView::of(json.member("timestamp"@)),
            current_pitch: FieldView::of(json.member("currentPitch"@)),
            current_roll: FieldView::of(json.member("currentRoll"@)),
            pitch_diff: FieldView::of(json.member("pitchDiff"@)),
            roll_diff: FieldView::of(json.member("rollDiff"@)),
            message: FieldView::of(json.member("message"@)),
        }
    }
}

impl Payload {
    /// A payload with every field absent.
    pub fn empty() -> (r: Payload)
        ensures
            r@ == (PayloadView {
                parked: FieldView::Absent,
                calibrated: FieldView::Absent,
                park_pitch: FieldView::Absent,
                park_roll: FieldView::Absent,
                tolerance: FieldView::Absent,
                uptime: FieldView::Absent,
                free_heap: FieldView::Absent,
                pitch: FieldView::Absent,
                roll: FieldView::Absent,
                timestamp: FieldView::Absent,
                current_pitch: FieldView::Absent,
                current_roll: FieldView::Absent,
                pitch_diff: FieldView::Absent,
                roll_diff: FieldView::Absent,
                message: FieldView::Absent,
            }),
    {
        Payload {
            parked: Field::Absent,
            calibrated: Field::Absent,
            park_pitch: Field::Absent,
            park_roll: Field::Absent,
            tolerance: Field::Absent,
            uptime: Field::Absent,
            free_heap: Field::Absent,
            pitch: Field::Absent,
            roll: Field::Absent,
            timestamp: Field::Absent,
            current_pitch: Field::Absent,
            current_roll: Field::Absent,
            pitch_diff: Field::Absent,
            roll_diff: Field::Absent,
            message: Field::Absent,
        }
    }

    /// A copy of this payload.
    pub fn duplicate(&self) -> (r: Payload)
        ensures
            r@ == self@,
    {
        Payload {
            parked: self.parked.duplicate(),
            calibrated: self.calibrated.duplicate(),
            park_pitch: self.park_pitch.duplicate(),
            park_roll: self.park_roll.duplicate(),
            tolerance: self.tolerance.duplicate(),
            uptime: self.uptime.duplicate(),
            free_heap: self.free_heap.duplicate(),
            pitch: self.pitch.duplicate(),
            roll: self.roll.duplicate(),
            timestamp: self.timestamp.duplicate(),
            current_pitch: self.current_pitch.duplicate(),
            current_roll: self.current_roll.duplicate(),
            pitch_diff: self.pitch_diff.duplicate(),
            roll_diff: self.roll_diff.duplicate(),
            message: self.message.duplicate(),
        }
    }
}

/// Copies the payload out of the `data` member of a message.
pub fn payload_of(value: &serde_json::Value) -> (r: Payload)
    ensures
        r@ == PayloadView::of(json_of(*value)),
{
    Payload {
        parked: member_field(value, "parked"),
        calibrated: member_field(value, "calibrated"),
        park_pitch: member_field(value, "parkPitch"),
        park_roll: member_field(value, "parkRoll"),
        tolerance: member_field(value, "tolerance"),
        uptime: member_field(value, "uptime"),
        free_heap: member_field(value, "freeHeap"),
        pitch: member_field(value, "pitch"),
        roll: member_field(value, "roll"),
        timestamp: member_field(value, "timestamp"),
        current_pitch: member_field(value, "currentPitch"),
        current_roll: member_field(value, "currentRoll"),
        pitch_diff: member_field(value, "pitchDiff"),
        roll_diff: member_field(value, "rollDiff"),
        message: member_field(value, "message"),
    }
}

/// The envelope of a structured message from the firmware.
#[derive(Debug, Clone, PartialEq, Eq)]
pub struct FirmwareResponse {
    /// `ack`, `ok` or `error`.
    pub status: String,
    pub command: Option<String>,
    pub data: Option<Payload>,
    pub message: Option<String>,
}

/// The view of an optional payload.
pub open spec fn payload_view(payload: Option<Payload>) -> Option<PayloadView> {
    match payload {
        Some(p) => Some(p@),
        None => None,
    }
}

/// The mathematical value of a [`FirmwareResponse`].
pub ghost struct FirmwareResponseView {
    pub status: Seq<char>,
    pub command: Option<Seq<char>>,
    pub data: Option<PayloadView>,
    pub message: Option<Seq<char>>,
}

impl View for FirmwareResponse {
    type V = FirmwareResponseView;

    open spec fn view(&self) -> FirmwareResponseView {
        FirmwareResponseView {
            status: self.status@,
            command: text_view(self.command),
            data: payload_view(self.data),
            message: text_view(self.message),
        }
    }
}

/// The view of an optional envelope.
pub open spec fn envelope_view(envelope: Option<FirmwareResponse>) -> Option<
    FirmwareResponseView,
> {
    match envelope {
        Some(e) => Some(e@),
        None => None,
    }
}

/// A member that may be left out: missing or `null` for none, a string for
/// some, anything else is malformed (the outer `None`).
pub open spec fn optional_text(field: FieldView) -> Option<Option<Seq<char>>> {
    match field {
        FieldView::Absent => Some(None),
        FieldView::Null => Some(None),
        FieldView::Text(text) => Some(Some(text)),
        _ => None,
    }
}

impl FirmwareResponseView {
    /// The envelope that a JSON document stands for: an object with a string
    /// under `status`, optional strings under `command` and `message`, and
    /// anything under `data`. `None` for every other document.
    pub open spec fn of(json: Json) -> Option<FirmwareResponseView> {
        let status = FieldView::of(json.member("status"@));
        let command = optional_text(FieldView::of(json.member("command"@)));
        let message = optional_text(FieldView::of(json.member("message"@)));
        if status is Text && command is Some && message is Some {
            Some(
                FirmwareResponseView {
                    status: status->Text_0,
                    command: command->Some_0,
                    data: match json.member("data"@) {
                        None => None,
                        Some(Json::Null) => None,
                        Some(data) => Some(PayloadView::of(data)),
                    },
                    message: message->Some_0,
                },
            )
        } else {
            None
        }
    }
}

fn read_optional_text(field: Field) -> (r: Option<Option<String>>)
    ensures
        match r {
            Some(text) => optional_text(field@) == Some(text_view(text)),
            None => optional_text(field@) is None,
        },
{
    match field {
        Field::Absent => Some(None),
        Field::Null => Some(None),
        Field::Text(text) => Some(Some(text)),
        _ => None,
    }
}

/// Reads the envelope out of a parsed line.
pub fn envelope_of(value: &serde_json::Value) -> (r: Option<FirmwareResponse>)
    ensures
        envelope_view(r) == FirmwareResponseView::of(json_of(*value)),
{
    let status = match member_field(value, "status") {
        Field::Text(text) => text,
        _ => {
            return None;
        },
    };
    let command = match read_optional_text(member_field(value, "command")) {
        Some(text) => text,
        None => {
            return None;
        },
    };
    let message = match read_optional_text(member_field(value, "message")) {
        Some(text) => text,
        None => {
            return None;
        },
    };
    let data = match member(value, "data") {
        None => None,
        Some(found) => {
            if is_null(found) {
                None
            } else {
                Some(payload_of(found))
            }
        },
    };
    Some(FirmwareResponse { status, command, data, message })
}

/// How loudly a line that is set aside should be logged.
#[derive(Debug, Clone, Copy, PartialEq, Eq)]
pub enum Notice {
    /// Empty lines, banners, debug output, and messages without their content.
    Silent,
    /// A line that is no structured message.
    Debug,
    /// A structured message with an unknown status.
    Warning,
}

/// A classified inbound line.
#[derive(Debug, Clone, PartialEq, Eq)]
pub enum ParsedResponse {
    /// The device has received the command with this token.
    Ack { command: String },
    /// The device answers with data.
    Data { payload: Payload },
    /// The device reports an error.
    Error { message: String },
    /// Anything else; it is discarded.
    Unrecognized { notice: Notice },
}

/// The mathematical value of a [`ParsedResponse`].
pub ghost enum ParsedResponseView {
    Ack { command: Seq<char> },
    Data { payload: PayloadView },
    Error { message: Seq<char> },
    Unrecognized { notice: Notice },
}

impl View for ParsedResponse {
    type V = ParsedResponseView;

    open spec fn view(&self) -> ParsedResponseView {
        match self {
            ParsedResponse::Ack { command } => ParsedResponseView::Ack { command: command@ },
            ParsedResponse::Data { payload } => ParsedResponseView::Data { payload: payload@ },
            ParsedResponse::Error { message } => ParsedResponseView::Error { message: message@ },
            ParsedResponse::Unrecognized { notice } => ParsedResponseView::Unrecognized {
                notice: *notice,
            },
        }
    }
}

/// The line is empty or part of the start-up banner.
pub open spec fn is_banner(line: Seq<char>) -> bool {
    line.len() == 0 || "====="@.is_prefix_of(line) || "Device ready"@.is_prefix_of(line)
}

/// The line is debug output of the firmware: it begins with the mark of a
/// debug section or with the word `Debug`. Where the word stands further in,
/// the line is read as any other.
pub open spec fn is_debug_text(line: Seq<char>) -> bool {
    "=== "@.is_prefix_of(line) || "Debug"@.is_prefix_of(line)
}

/// What an envelope means.
pub open spec fn classify_envelope_spec(envelope: FirmwareResponseView) -> ParsedResponseView {
    if envelope.status == "ack"@ {
        match envelope.command {
            Some(command) => ParsedResponseView::Ack { command },
            None => ParsedResponseView::Unrecognized { notice: Notice::Silent },
        }
    } else if envelope.status == "ok"@ {
        match envelope.data {
            Some(payload) => ParsedResponseView::Data { payload },
            None => ParsedResponseView::Unrecognized { notice: Notice::Silent },
        }
    } else if envelope.status == "error"@ {
        match envelope.message {
            Some(message) => ParsedResponseView::Error { message },
            None => ParsedResponseView::Error { message: "Unknown device error"@ },
        }
    } else {
        ParsedResponseView::Unrecognized { notice: Notice::Warning }
    }
}

/// What a line means, given the document that the JSON parser makes of it
/// (`None` where it makes none).
pub open spec fn decode_parsed_spec(line: Seq<char>, parsed: Option<Json>) -> ParsedResponseView {
    if is_banner(line) || is_debug_text(line) {
        ParsedResponseView::Unrecognized { notice: Notice::Silent }
    } else {
        match parsed {
            None => ParsedResponseView::Unrecognized { notice: Notice::Debug },
            Some(json) => match FirmwareResponseView::of(json) {
                None => ParsedResponseView::Unrecognized { notice: Notice::Debug },
                Some(envelope) => classify_envelope_spec(envelope),
            },
        }
    }
}

/// What a line means.
pub open spec fn decode_line_spec(line: Seq<char>) -> ParsedResponseView {
    decode_parsed_spec(line, json_parse(line))
}

/// Whether a line is text for humans and not a message: empty, a banner, or
/// debug output.
pub fn is_plain_text(line: &str) -> (r: bool)
    ensures
        r == (is_banner(line@) || is_debug_text(line@)),
{
    line.unicode_len() == 0 || text_starts_with(line, "=====") || text_starts_with(
        line,
        "Device ready",
    ) || text_starts_with(line, "=== ") || text_starts_with(line, "Debug")
}

/// Classifies an envelope by its status: `ack` with its command, `ok` with its
/// payload, `error` with its message (a fixed text where the device sent
/// none). An `ack` without a command and an `ok` without data carry nothing and
/// are set aside quietly; an unknown status is set aside with a warning.
pub fn classify_envelope(envelope: FirmwareResponse) -> (r: ParsedResponse)
    ensures
        r@ == classify_envelope_spec(envelope@),
{
    if same_text(envelope.status.as_str(), "ack") {
        match envelope.command {
            Some(command) => ParsedResponse::Ack { command },
            None => ParsedResponse::Unrecognized { notice: Notice::Silent },
        }
    } else if same_text(envelope.status.as_str(), "ok") {
        match envelope.data {
            Some(payload) => ParsedResponse::Data { payload },
            None => ParsedResponse::Unrecognized { notice: Notice::Silent },
        }
    } else if same_text(envelope.status.as_str(), "error") {
        match envelope.message {
            Some(message) => ParsedResponse::Error { message },
            None => ParsedResponse::Error { message: String::from_str("Unknown device error") },
        }
    } else {
        ParsedResponse::Unrecognized { notice: Notice::Warning }
    }
}

/// Classifies a parsed line that is not plain text.
pub fn classify_value(value: &serde_json::Value) -> (r: ParsedResponse)
    ensures
        r@ == (match FirmwareResponseView::of(json_of(*value)) {
            None => ParsedResponseView::Unrecognized { notice: Notice::Debug },
            Some(envelope) => classify_envelope_spec(envelope),
        }),
{
    match envelope_of(value) {
        None => ParsedResponse::Unrecognized { notice: Notice::Debug },
        Some(envelope) => classify_envelope(envelope),
    }
}

/// Classifies one inbound line, already trimmed. Plain text is set aside
/// quietly; a line that is no JSON document, or no envelope, is set aside with
/// a debug note; an envelope is classified by its status.
pub fn decode_line(line: &str) -> (r: ParsedResponse)
    ensures
        r@ == decode_line_spec(line@),
{
    if is_plain_text(line) {
        return ParsedResponse::Unrecognized { notice: Notice::Silent };
    }
    match parse_value(line) {
        Err(_) => ParsedResponse::Unrecognized { notice: Notice::Debug },
        Ok(value) => classify_value(&value),
    }
}

/// What the payload of an `ok` message turned out to be.
#[derive(Debug, Clone, PartialEq, Eq)]
pub enum Telemetry {
    Status(StatusResponse),
    Position(PositionResponse),
    ParkStatus(ParkStatusResponse),
    /// A payload that only carries a text for the log.
    Message(String),
    /// A payload of no known shape.
    Unknown,
}

/// The mathematical value of a [`Telemetry`].
pub ghost enum TelemetryView {
    Status(StatusResponseView),
    Position(PositionResponseView),
    ParkStatus(ParkStatusResponseView),
    Message(Seq<char>),
    Unknown,
}

impl View for Telemetry {
    type V = TelemetryView;

    open spec fn view(&self) -> TelemetryView {
        match self {
            Telemetry::Status(status) => TelemetryView::Status(status@),
            Telemetry::Position(position) => TelemetryView::Position(position@),
            Telemetry::ParkStatus(park) => TelemetryView::ParkStatus(park@),
            Telemetry::Message(text) => TelemetryView::Message(text@),
            Telemetry::Unknown => TelemetryView::Unknown,
        }
    }
}

/// The decimal text of a required number.
pub open spec fn required_number(field: FieldView) -> Option<Seq<char>> {
    match field {
        FieldView::Number { text, unsigned } => Some(text),
        _ => None,
    }
}

/// A number that may be left out: missing or `null` for none, anything but a
/// number is malformed (the outer `None`).
pub open spec fn optional_number(field: FieldView) -> Option<Option<Seq<char>>> {
    match field {
        FieldView::Absent => Some(None),
        FieldView::Null => Some(None),
        FieldView::Number { text, unsigned } => Some(Some(text)),
        _ => None,
    }
}

/// A required flag.
pub open spec fn required_flag(field: FieldView) -> Option<bool> {
    match field {
        FieldView::Flag(flag) => Some(flag),
        _ => None,
    }
}

/// A counter that may be left out: missing or `null` for none, a non-negative
/// integer for some, anything else is malformed (the outer `None`).
pub open spec fn optional_counter(field: FieldView) -> Option<Option<u64>> {
    match field {
        FieldView::Absent => Some(None),
        FieldView::Null => Some(None),
        FieldView::Number { text, unsigned: Some(count) } => Some(Some(count)),
        _ => None,
    }
}

/// A counter that defaults to zero where it is missing; `null` and anything
/// but a non-negative integer are malformed.
pub open spec fn defaulted_counter(field: FieldView) -> Option<u64> {
    match field {
        FieldView::Absent => Some(0),
        FieldView::Number { text, unsigned: Some(count) } => Some(count),
        _ => None,
    }
}

impl PayloadView {
    /// The payload read as the answer to a status query: the two flags, the
    /// park position and the tolerance are required, the counters optional.
    pub open spec fn as_status(self) -> Option<StatusResponseView> {
        let parked = required_flag(self.parked);
        let calibrated = required_flag(self.calibrated);
        let park_pitch = required_number(self.park_pitch);
        let park_roll = required_number(self.park_roll);
        let tolerance = required_number(self.tolerance);
        let uptime = optional_counter(self.uptime);
        let free_heap = optional_counter(self.free_heap);
        if parked is Some && calibrated is Some && park_pitch is Some && park_roll is Some
            && tolerance is Some && uptime is Some && free_heap is Some {
            Some(
                StatusResponseView {
                    parked: parked->Some_0,
                    calibrated: calibrated->Some_0,
                    park_pitch: park_pitch->Some_0,
                    park_roll: park_roll->Some_0,
                    tolerance: tolerance->Some_0,
                    uptime: uptime->Some_0,
                    free_heap: free_heap->Some_0,
                },
            )
        } else {
            None
        }
    }

    /// The payload read as the answer to a position query: the orientation
    /// pair is required, the timestamp defaults to zero.
    pub open spec fn as_position(self) -> Option<PositionResponseView> {
        let pitch = required_number(self.pitch);
        let roll = required_number(self.roll);
        let timestamp = defaulted_counter(self.timestamp);
        if pitch is Some && roll is Some && timestamp is Some {
            Some(
                PositionResponseView {
                    pitch: pitch->Some_0,
                    roll: roll->Some_0,
                    timestamp: timestamp->Some_0,
                },
            )
        } else {
            None
        }
    }

    /// The payload read as the answer to a park-status query: the flag, the
    /// orientation pair, the park position and the tolerance are required,
    /// the two differences optional.
    pub open spec fn as_park_status(self) -> Option<ParkStatusResponseView> {
        let parked = required_flag(self.parked);
        let current_pitch = required_number(self.current_pitch);
        let current_roll = required_number(self.current_roll);
        let park_pitch = required_number(self.park_pitch);
        let park_roll = required_number(self.park_roll);
        let tolerance = required_number(self.tolerance);
        let pitch_diff = optional_number(self.pitch_diff);
        let roll_diff = optional_number(self.roll_diff);
        if parked is Some && current_pitch is Some && current_roll is Some && park_pitch is Some
            && park_roll is Some && tolerance is Some && pitch_diff is Some && roll_diff is Some {
            Some(
                ParkStatusResponseView {
                    parked: parked->Some_0,
                    current_pitch: current_pitch->Some_0,
                    current_roll: current_roll->Some_0,
                    park_pitch: park_pitch->Some_0,
                    park_roll: park_roll->Some_0,
                    tolerance: tolerance->Some_0,
                    pitch_diff: pitch_diff->Some_0,
                    roll_diff: roll_diff->Some_0,
                },
            )
        } else {
            None
        }
    }

    /// The payload classified: the first of the status, position and
    /// park-status shapes that fits, else its message, else unknown.
    pub open spec fn classify(self) -> TelemetryView {
        if self.as_status() is Some {
            TelemetryView::Status(self.as_status()->Some_0)
        } else if self.as_position() is Some {
            TelemetryView::Position(self.as_position()->Some_0)
        } else if self.as_park_status() is Some {
            TelemetryView::ParkStatus(self.as_park_status()->Some_0)
        } else if self.message is Text {
            TelemetryView::Message(self.message->Text_0)
        } else {
            TelemetryView::Unknown
        }
    }
}

fn read_number(field: &Field) -> (r: Option<Reading>)
    ensures
        reading_view(r) == required_number(field@),
{
    match field {
        Field::Number { text, unsigned } => Some(Reading { text: text.clone() }),
        _ => None,
    }
}

fn read_optional_number(field: &Field) -> (r: Option<Option<Reading>>)
    ensures
        match r {
            Some(reading) => optional_number(field@) == Some(reading_view(reading)),
            None => optional_number(field@) is None,
        },
{
    match field {
        Field::Absent => Some(None),
        Field::Null => Some(None),
        Field::Number { text, unsigned } => Some(Some(Reading { text: text.clone() })),
        _ => None,
    }
}

fn read_flag(field: &Field) -> (r: Option<bool>)
    ensures
        r == required_flag(field@),
{
    match field {
        Field::Flag(flag) => Some(*flag),
        _ => None,
    }
}

fn read_optional_counter(field: &Field) -> (r: Option<Option<u64>>)
    ensures
        r == optional_counter(field@),
{
    match field {
        Field::Absent => Some(None),
        Field::Null => Some(None),
        Field::Number { text, unsigned: Some(count) } => Some(Some(*count)),
        _ => None,
    }
}

fn read_defaulted_counter(field: &Field) -> (r: Option<u64>)
    ensures
        r == defaulted_counter(field@),
{
    match field {
        Field::Absent => Some(0),
        Field::Number { text, unsigned: Some(count) } => Some(*count),
        _ => None,
    }
}

/// The view of an optional status payload.
pub open spec fn status_view(status: Option<StatusResponse>) -> Option<StatusResponseView> {
    match status {
        Some(s) => Some(s@),
        None => None,
    }
}

/// The view of an optional position payload.
pub open spec fn position_view(position: Option<PositionResponse>) -> Option<
    PositionResponseView,
> {
    match position {
        Some(p) => Some(p@),
        None => None,
    }
}

/// The view of an optional park-status payload.
pub open spec fn park_status_view(park: Option<ParkStatusResponse>) -> Option<
    ParkStatusResponseView,
> {
    match park {
        Some(p) => Some(p@),
        None => None,
    }
}

impl Payload {
    /// Reads the payload as the answer to a status query, if it has that shape.
    pub fn as_status(&self) -> (r: Option<StatusResponse>)
        ensures
            status_view(r) == self@.as_status(),
    {
        let parked = read_flag(&self.parked)?;
        let calibrated = read_flag(&self.calibrated)?;
        let park_pitch = read_number(&self.park_pitch)?;
        let park_roll = read_number(&self.park_roll)?;
        let tolerance = read_number(&self.tolerance)?;
        let uptime = read_optional_counter(&self.uptime)?;
        let free_heap = read_optional_counter(&self.free_heap)?;
        Some(
            StatusResponse { parked, calibrated, park_pitch, park_roll, tolerance, uptime, free_heap },
        )
    }

    /// Reads the payload as the answer to a position query, if it has that
    /// shape.
    pub fn as_position(&self) -> (r: Option<PositionResponse>)
        ensures
            position_view(r) == self@.as_position(),
    {
        let pitch = read_number(&self.pitch)?;
        let roll = read_number(&self.roll)?;
        let timestamp = read_defaulted_counter(&self.timestamp)?;
        Some(PositionResponse { pitch, roll, timestamp })
    }

    /// Reads the payload as the answer to a park-status query, if it has that
    /// shape.
    pub fn as_park_status(&self) -> (r: Option<ParkStatusResponse>)
        ensures
            park_status_view(r) == self@.as_park_status(),
    {
        let parked = read_flag(&self.parked)?;
        let current_pitch = read_number(&self.current_pitch)?;
        let current_roll = read_number(&self.current_roll)?;
        let park_pitch = read_number(&self.park_pitch)?;
        let park_roll = read_number(&self.park_roll)?;
        let tolerance = read_number(&self.tolerance)?;
        let pitch_diff = read_optional_number(&self.pitch_diff)?;
        let roll_diff = read_optional_number(&self.roll_diff)?;
        Some(
            ParkStatusResponse {
                parked,
                current_pitch,
                current_roll,
                park_pitch,
                park_roll,
                tolerance,
                pitch_diff,
                roll_diff,
            },
        )
    }

    /// Classifies the payload: the shapes are tried in the order status,
    /// position, park status, and the first that fits decides. A payload of
    /// none of these shapes is a message where it has a text under `message`,
    /// and unknown otherwise.
    pub fn classify(&self) -> (r: Telemetry)
        ensures
            r@ == self@.classify(),
    {
        if let Some(status) = self.as_status() {
            return Telemetry::Status(status);
        }
        if let Some(position) = self.as_position() {
            return Telemetry::Position(position);
        }
        if let Some(park) = self.as_park_status() {
            return Telemetry::ParkStatus(park);
        }
        match &self.message {
            Field::Text(text) => Telemetry::Message(text.clone()),
            _ => Telemetry::Unknown,
        }
    }
}

} // verus!
