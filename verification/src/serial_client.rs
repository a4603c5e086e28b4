//! The session core: what one connection to the device decides.
//!
//! A session owns the transport for its lifetime. Whoever drives it does the
//! waiting: it opens the port, reads lines, writes bytes and watches the
//! timers and the cancellation signal, and reports each event to the session.
//! The session answers with the next state and with what is owed: bytes to
//! write, and the resolution of commands that were in flight.

use vstd::prelude::*;
use crate::codec::{ParsedResponse, ParsedResponseView, Payload, Telemetry, TelemetryView};
use crate::device_state::{DeviceState, DeviceStateView};
use crate::errors::{BridgeError, BridgeErrorView};
use crate::pending::{
    PendingCommand,
    PendingCommandView,
    PendingTable,
    after_ack,
    after_completion,
    after_failure,
    completed_entry,
    entry_views,
    failed_entry,
};

verus! {

/// The answer that the waiter of one command is owed.
#[derive(Debug, PartialEq, Eq)]
pub struct Resolution {
    /// Names the waiter.
    pub ticket: u64,
    /// The raw text of the device's answer, or why there is none.
    pub result: Result<String, BridgeError>,
}

/// The mathematical value of a [`Resolution`].
pub ghost struct ResolutionView {
    pub ticket: u64,
    pub result: Result<Seq<char>, BridgeErrorView>,
}

impl View for Resolution {
    type V = ResolutionView;

    open spec fn view(&self) -> ResolutionView {
        ResolutionView {
            ticket: self.ticket,
            result: match self.result {
                Ok(text) => Ok(text@),
                Err(error) => Err(error@),
            },
        }
    }
}

/// The views of a sequence of resolutions.
pub open spec fn resolution_views(resolutions: Seq<Resolution>) -> Seq<ResolutionView> {
    resolutions.map_values(|r: Resolution| r@)
}

/// The failure of a command whose session ended under it.
pub open spec fn connection_closed() -> BridgeErrorView {
    BridgeErrorView::Device("Connection closed"@)
}

/// The resolutions that answer every entry with the same failure, in order.
pub open spec fn fail_all(entries: Seq<PendingCommandView>, error: BridgeErrorView) -> Seq<
    ResolutionView,
> {
    entries.map_values(|e: PendingCommandView| ResolutionView { ticket: e.ticket, result: Err(error) })
}

/// The resolution of an optional entry with the given result.
pub open spec fn resolve_entry(
    entry: Option<PendingCommandView>,
    result: Result<Seq<char>, BridgeErrorView>,
) -> Seq<ResolutionView> {
    match entry {
        Some(e) => seq![ResolutionView { ticket: e.ticket, result }],
        None => Seq::empty(),
    }
}

impl DeviceStateView {
    /// The record after classified telemetry was applied at `now`. A message
    /// or a payload of unknown shape changes nothing.
    pub open spec fn after_telemetry(self, telemetry: TelemetryView, now: u64) -> DeviceStateView {
        match telemetry {
            TelemetryView::Status(status) => self.after_status(status, now),
            TelemetryView::Position(position) => self.after_position(position, now),
            TelemetryView::ParkStatus(park) => self.after_park_status(park, now),
            TelemetryView::Message(_) => self,
            TelemetryView::Unknown => self,
        }
    }
}

/// Applies the payload of an `ok` message to the device state, by the first
/// shape that it fits. Returns what the payload turned out to be.
pub fn update_device_state_from_data(state: &mut DeviceState, payload: &Payload, now: u64) -> (r:
    Telemetry)
    ensures
        r@ == payload@.classify(),
        final(state)@ == old(state)@.after_telemetry(payload@.classify(), now),
{
    let telemetry = payload.classify();
    match &telemetry {
        Telemetry::Status(status) => state.update_from_status(status, now),
        Telemetry::Position(position) => state.update_from_position(position, now),
        Telemetry::ParkStatus(park) => state.update_from_park_status(park, now),
        Telemetry::Message(_) => {},
        Telemetry::Unknown => {},
    }
    telemetry
}

/// What a classified line does to the table of commands in flight.
pub open spec fn routed_pending(pending: Seq<PendingCommandView>, response: ParsedResponseView)
    -> Seq<PendingCommandView> {
    match response {
        ParsedResponseView::Ack { command } => after_ack(pending, command),
        ParsedResponseView::Data { payload } => after_completion(pending),
        ParsedResponseView::Error { message } => after_failure(pending),
        ParsedResponseView::Unrecognized { notice } => pending,
    }
}

/// What a classified line does to the device state at `now`.
pub open spec fn routed_state(state: DeviceStateView, response: ParsedResponseView, now: u64)
    -> DeviceStateView {
    match response {
        ParsedResponseView::Ack { command } => state,
        ParsedResponseView::Data { payload } => state.after_telemetry(payload.classify(), now),
        ParsedResponseView::Error { message } => state.with_device_error(message, now),
        ParsedResponseView::Unrecognized { notice } => state,
    }
}

/// The resolutions that a classified line brings: data answers the oldest
/// acknowledged command with the raw text of the line, an error fails the
/// oldest command of all.
pub open spec fn routed_resolutions(
    pending: Seq<PendingCommandView>,
    response: ParsedResponseView,
    raw: Seq<char>,
) -> Seq<ResolutionView> {
    match response {
        ParsedResponseView::Ack { command } => Seq::empty(),
        ParsedResponseView::Data { payload } => resolve_entry(completed_entry(pending), Ok(raw)),
        ParsedResponseView::Error { message } => resolve_entry(
            failed_entry(pending),
            Err(BridgeErrorView::Device(message)),
        ),
        ParsedResponseView::Unrecognized { notice } => Seq::empty(),
    }
}

/// Routes one classified line: an acknowledgement marks its command, data is
/// applied to the device state and completes the oldest acknowledged command
/// with the raw text `raw`, an error is noted in the device state and fails
/// the oldest command. Anything else is discarded. An error of the device
/// leaves the connection as it is: the record stays connected.
pub fn process_response_with_commands(
    response: ParsedResponse,
    raw: &str,
    state: &mut DeviceState,
    pending: &mut PendingTable,
    now: u64,
) -> (r: Vec<Resolution>)
    ensures
        final(pending)@ == routed_pending(old(pending)@, response@),
        final(state)@ == routed_state(old(state)@, response@, now),
        resolution_views(r@) == routed_resolutions(old(pending)@, response@, raw@),
{
    let mut out: Vec<Resolution> = Vec::new();
    match response {
        ParsedResponse::Ack { command } => {
            pending.acknowledge(command.as_str());
        },
        ParsedResponse::Data { payload } => {
            if let Some(entry) = pending.complete_oldest_acknowledged() {
                out.push(Resolution { ticket: entry.ticket, result: Ok(String::from_str(raw)) });
            }
            update_device_state_from_data(state, &payload, now);
        },
        ParsedResponse::Error { message } => {
            if let Some(entry) = pending.fail_oldest() {
                out.push(
                    Resolution {
                        ticket: entry.ticket,
                        result: Err(BridgeError::Device(message.clone())),
                    },
                );
            }
            state.note_device_error(message.as_str(), now);
        },
        ParsedResponse::Unrecognized { notice } => {},
    }
    assert(resolution_views(out@) =~= routed_resolutions(old(pending)@, response@, raw@));
    out
}

/// What reading one line from the transport came to.
#[derive(Debug, Clone, PartialEq, Eq)]
pub enum ReadOutcome {
    /// The read returned: how many bytes it took, and the text it took.
    Line { bytes_read: usize, text: String },
    /// The read failed, with the text of the failure.
    Failed(String),
    /// No line arrived within the read window.
    TimedOut,
}

/// The mathematical value of a [`ReadOutcome`].
pub ghost enum ReadOutcomeView {
    Line { bytes_read: usize, text: Seq<char> },
    Failed(Seq<char>),
    TimedOut,
}

impl View for ReadOutcome {
    type V = ReadOutcomeView;

    open spec fn view(&self) -> ReadOutcomeView {
        match self {
            ReadOutcome::Line { bytes_read, text } => ReadOutcomeView::Line {
                bytes_read: *bytes_read,
                text: text@,
            },
            ReadOutcome::Failed(detail) => ReadOutcomeView::Failed(detail@),
            ReadOutcome::TimedOut => ReadOutcomeView::TimedOut,
        }
    }
}

/// The view of the result of a read.
pub open spec fn read_view(result: Result<String, BridgeError>) -> Result<
    Seq<char>,
    BridgeErrorView,
> {
    match result {
        Ok(text) => Ok(text@),
        Err(error) => Err(error@),
    }
}

/// What a read means: a read of no bytes is the end of the stream, a line is
/// handed on without the whitespace around it, a failure and a timeout are
/// reported as such.
pub open spec fn read_response_spec(outcome: ReadOutcomeView) -> Result<
    Seq<char>,
    BridgeErrorView,
> {
    match outcome {
        ReadOutcomeView::Line { bytes_read, text } => if bytes_read == 0 {
            Err(BridgeErrorView::Io("Device disconnected"@))
        } else {
            Ok(crate::text::trimmed(text))
        },
        ReadOutcomeView::Failed(detail) => Err(BridgeErrorView::Io(detail)),
        ReadOutcomeView::TimedOut => Err(BridgeErrorView::Timeout),
    }
}

/// Interprets the outcome of reading one line.
pub fn read_response(outcome: &ReadOutcome) -> (r: Result<String, BridgeError>)
    ensures
        read_view(r) == read_response_spec(outcome@),
{
    match outcome {
        ReadOutcome::Line { bytes_read, text } => {
            if *bytes_read == 0 {
                Err(BridgeError::Io(String::from_str("Device disconnected")))
            } else {
                Ok(crate::text::trim_text(text.as_str()))
            }
        },
        ReadOutcome::Failed(detail) => Err(BridgeError::Io(detail.clone())),
        ReadOutcome::TimedOut => Err(BridgeError::Timeout),
    }
}

/// The token of the telemetry-status query.
pub const STATUS_QUERY: &'static str = "01";

/// The token of the park-status query.
pub const PARK_QUERY: &'static str = "03";

/// How many milliseconds the telemetry-status poll waits between queries.
pub const STATUS_POLL_MS: u64 = 2_000;

/// How many milliseconds the park-status poll waits between queries.
pub const PARK_POLL_MS: u64 = 1_000;

/// How many milliseconds a read waits for a line while the session is active.
pub const READ_WINDOW_MS: u64 = 3_000;

/// How many milliseconds the start-up banner is drained at most.
pub const HANDSHAKE_WINDOW_MS: u64 = 3_000;

/// A line of more bytes than this ends the handshake: the device has booted.
pub const BANNER_LINE_LIMIT: usize = 10;

/// How many milliseconds the port is given to settle after its release.
pub const SETTLE_MS: u64 = 1_000;

/// How many milliseconds a single read or write on the port may take.
pub const PORT_TIMEOUT_MS: u64 = 1_000;

/// How many milliseconds the device is given to wake after the port opened.
pub const WAKE_DELAY_MS: u64 = 1_000;

/// How many milliseconds one read of the handshake waits for a line.
pub const HANDSHAKE_READ_MS: u64 = 100;

/// How the serial port is opened. Only the speed is the caller's choice.
#[derive(Debug, Clone, Copy, PartialEq, Eq, Structural)]
pub struct TransportSettings {
    pub baud_rate: u32,
    pub data_bits: u8,
    pub parity: bool,
    pub stop_bits: u8,
    pub flow_control: bool,
    pub timeout_ms: u64,
    /// The level of the data-terminal-ready line, where the platform sets it.
    pub data_terminal_ready: bool,
    /// The level of the request-to-send line, where the platform sets it.
    pub request_to_send: bool,
    pub wake_delay_ms: u64,
}

/// The settings of the transport at `baud_rate`: eight data bits, no parity,
/// one stop bit, no flow control; data-terminal-ready raised and
/// request-to-send lowered to wake the device.
pub fn transport_settings(baud_rate: u32) -> (r: TransportSettings)
    ensures
        r == (TransportSettings {
            baud_rate,
            data_bits: 8,
            parity: false,
            stop_bits: 1,
            flow_control: false,
            timeout_ms: PORT_TIMEOUT_MS,
            data_terminal_ready: true,
            request_to_send: false,
            wake_delay_ms: WAKE_DELAY_MS,
        }),
{
    TransportSettings {
        baud_rate,
        data_bits: 8,
        parity: false,
        stop_bits: 1,
        flow_control: false,
        timeout_ms: PORT_TIMEOUT_MS,
        data_terminal_ready: true,
        request_to_send: false,
        wake_delay_ms: WAKE_DELAY_MS,
    }
}

/// Where a session stands in its life.
#[derive(Debug, Clone, Copy, PartialEq, Eq, Structural)]
pub enum Phase {
    /// The transport is being opened.
    Opening,
    /// The start-up banner is being drained.
    Handshaking,
    /// Commands, lines and polls are being served.
    Active,
    /// The loop has ended; the teardown is owed.
    Closing,
    /// The teardown is done.
    Closed,
}

/// The two periodic queries.
#[derive(Debug, Clone, Copy, PartialEq, Eq, Structural)]
pub enum PollKind {
    /// The telemetry-status query, on the longer period.
    Status,
    /// The park-status query, on the shorter period.
    Park,
}

impl PollKind {
    /// The token of the query.
    pub open spec fn token(self) -> Seq<char> {
        match self {
            PollKind::Status => STATUS_QUERY@,
            PollKind::Park => PARK_QUERY@,
        }
    }

    /// How many milliseconds the poll waits between queries.
    pub fn period_ms(self) -> (r: u64)
        ensures
            r == (match self {
                PollKind::Status => STATUS_POLL_MS,
                PollKind::Park => PARK_POLL_MS,
            }),
    {
        match self {
            PollKind::Status => STATUS_POLL_MS,
            PollKind::Park => PARK_POLL_MS,
        }
    }
}

/// Answers every entry with a copy of the same failure, in order.
pub fn fail_entries(entries: Vec<PendingCommand>, error: &BridgeError) -> (r: Vec<Resolution>)
    ensures
        resolution_views(r@) == fail_all(entry_views(entries@), error@),
{
    let mut out: Vec<Resolution> = Vec::new();
    let mut i: usize = 0;
    while i < entries.len()
        invariant
            i <= entries.len(),
            out.len() == i,
            forall|k: int|
                0 <= k < i ==> (#[trigger] out@[k])@ == (ResolutionView {
                    ticket: entries@[k].ticket,
                    result: Err(error@),
                }),
        decreases entries.len() - i,
    {
        out.push(Resolution { ticket: entries[i].ticket, result: Err(error.duplicate()) });
        i += 1;
    }
    assert(resolution_views(out@) =~= fail_all(entry_views(entries@), error@));
    out
}

/// One connection to the device: its phase and its commands in flight.
pub struct Session {
    phase: Phase,
    pending: PendingTable,
    handshake_started: u64,
}

/// The mathematical value of a [`Session`].
pub ghost struct SessionView {
    pub phase: Phase,
    /// The commands in flight, oldest first.
    pub pending: Seq<PendingCommandView>,
    /// When the handshake began, in milliseconds of a monotonic clock.
    pub handshake_started: u64,
}

impl View for Session {
    type V = SessionView;

    closed spec fn view(&self) -> SessionView {
        SessionView {
            phase: self.phase,
            pending: self.pending@,
            handshake_started: self.handshake_started,
        }
    }
}

impl SessionView {
    /// A session that has not yet opened its transport.
    pub open spec fn fresh() -> SessionView {
        SessionView { phase: Phase::Opening, pending: Seq::empty(), handshake_started: 0 }
    }

    /// Commands are in flight only while the session is active or about to be
    /// torn down.
    pub open spec fn wf(self) -> bool {
        self.pending.len() > 0 ==> (self.phase == Phase::Active || self.phase == Phase::Closing)
    }

    /// The session once its transport is open at `now_ms`.
    pub open spec fn opened(self, now_ms: u64) -> SessionView {
        if self.phase == Phase::Opening {
            SessionView { phase: Phase::Handshaking, handshake_started: now_ms, ..self }
        } else {
            self
        }
    }

    /// The session after its transport could not be opened.
    pub open spec fn open_failed(self) -> SessionView {
        if self.phase == Phase::Opening {
            SessionView { phase: Phase::Closed, ..self }
        } else {
            self
        }
    }

    /// Whether a read during the handshake ends it: a line longer than the
    /// banner limit, or the end of the handshake window.
    pub open spec fn handshake_done(self, bytes_read: Option<usize>, now_ms: u64) -> bool {
        ||| (bytes_read matches Some(n) && n > BANNER_LINE_LIMIT)
        ||| now_ms - self.handshake_started >= HANDSHAKE_WINDOW_MS
    }

    /// Whether a read during the handshake makes the session active.
    pub open spec fn becomes_active(self, bytes_read: Option<usize>, now_ms: u64) -> bool {
        self.phase == Phase::Handshaking && self.handshake_done(bytes_read, now_ms)
    }

    /// The session after the cancellation signal.
    pub open spec fn cancelled(self) -> SessionView {
        if self.phase == Phase::Closed {
            self
        } else {
            SessionView { phase: Phase::Closing, ..self }
        }
    }

    /// The session with its loop ended.
    pub open spec fn ended(self) -> SessionView {
        if self.phase == Phase::Active {
            SessionView { phase: Phase::Closing, ..self }
        } else {
            self
        }
    }

    /// The session after its teardown.
    pub open spec fn closed(self) -> SessionView {
        SessionView { phase: Phase::Closed, pending: Seq::empty(), ..self }
    }
}

impl DeviceStateView {
    /// The record when a session for `port` begins.
    pub open spec fn connecting(self, port: Seq<char>) -> DeviceStateView {
        DeviceStateView { serial_port: Some(port), connected: false, ..self }
    }

    /// The record when the handshake of a session has ended at `now`.
    pub open spec fn connected_at(self, now: u64) -> DeviceStateView {
        DeviceStateView { connected: true, error_message: None, last_update: now, ..self }
    }
}

/// The session after a read while it is active: a line is routed, a timeout
/// sweeps the table, anything else ends the loop.
pub open spec fn session_after_read(
    session: SessionView,
    outcome: ReadOutcomeView,
    now_ms: u64,
) -> SessionView {
    if session.phase != Phase::Active {
        session
    } else {
        match read_response_spec(outcome) {
            Ok(line) => SessionView {
                pending: routed_pending(session.pending, crate::codec::decode_line_spec(line)),
                ..session
            },
            Err(BridgeErrorView::Timeout) => SessionView {
                pending: crate::pending::live_entries(session.pending, now_ms),
                ..session
            },
            Err(_) => session.ended(),
        }
    }
}

/// The device state after a read while the session is active.
pub open spec fn state_after_read(
    session: SessionView,
    state: DeviceStateView,
    outcome: ReadOutcomeView,
    now_secs: u64,
) -> DeviceStateView {
    if session.phase != Phase::Active {
        state
    } else {
        match read_response_spec(outcome) {
            Ok(line) => routed_state(state, crate::codec::decode_line_spec(line), now_secs),
            Err(_) => state,
        }
    }
}

/// The resolutions that a read brings while the session is active.
pub open spec fn resolutions_after_read(
    session: SessionView,
    outcome: ReadOutcomeView,
    now_ms: u64,
) -> Seq<ResolutionView> {
    if session.phase != Phase::Active {
        Seq::empty()
    } else {
        match read_response_spec(outcome) {
            Ok(line) => routed_resolutions(
                session.pending,
                crate::codec::decode_line_spec(line),
                line,
            ),
            Err(BridgeErrorView::Timeout) => fail_all(
                crate::pending::expired_entries(session.pending, now_ms),
                BridgeErrorView::Timeout,
            ),
            Err(_) => Seq::empty(),
        }
    }
}

/// The view of an optional resolution, as a sequence.
pub open spec fn resolution_view(resolution: Option<Resolution>) -> Seq<ResolutionView> {
    match resolution {
        Some(r) => seq![r@],
        None => Seq::empty(),
    }
}

/// The session after a command was written, or failed to be written, at
/// `now_ms`: a written command is in flight while the session is active.
pub open spec fn session_after_command(
    session: SessionView,
    ticket: u64,
    command: Seq<char>,
    failure: Option<Seq<char>>,
    now_ms: u64,
) -> SessionView {
    if session.phase == Phase::Active && failure is None {
        SessionView {
            pending: session.pending.push(
                PendingCommandView { ticket, command, received_ack: false, issued_at: now_ms },
            ),
            ..session
        }
    } else {
        session
    }
}

impl Session {
    /// Begins a session for `port`: the device state names the port and is
    /// not connected; the transport is yet to be opened.
    pub fn start(port: &str, state: &mut DeviceState) -> (r: Session)
        ensures
            r@ == SessionView::fresh(),
            r@.wf(),
            final(state)@ == old(state)@.connecting(port@),
    {
        state.serial_port = Some(String::from_str(port));
        state.connected = false;
        Session { phase: Phase::Opening, pending: PendingTable::new(), handshake_started: 0 }
    }

    /// Where the session stands.
    pub fn phase(&self) -> (r: Phase)
        ensures
            r == self@.phase,
    {
        self.phase
    }

    /// How many commands are in flight.
    pub fn pending_len(&self) -> (r: usize)
        ensures
            r == self@.pending.len(),
    {
        self.pending.len()
    }

    /// A copy of the command in flight at `index`, counted from the oldest.
    pub fn pending_at(&self, index: usize) -> (r: Option<PendingCommand>)
        ensures
            crate::pending::entry_view(r) == (if index < self@.pending.len() {
                Some(self@.pending[index as int])
            } else {
                None
            }),
    {
        self.pending.get(index)
    }

    /// The transport is open: the handshake begins at `now_ms`.
    pub fn opened(&mut self, now_ms: u64)
        ensures
            final(self)@ == old(self)@.opened(now_ms),
            old(self)@.wf() ==> final(self)@.wf(),
    {
        if self.phase == Phase::Opening {
            self.phase = Phase::Handshaking;
            self.handshake_started = now_ms;
        }
    }

    /// The transport could not be opened. This ends the session: nothing is
    /// retried, the device state goes back to its disconnected defaults, and
    /// the failure to report is returned.
    pub fn open_failed(&mut self, detail: String, state: &mut DeviceState, now_secs: u64) -> (r:
        BridgeError)
        ensures
            r@ == BridgeErrorView::Serial(detail@),
            final(self)@ == old(self)@.open_failed(),
            final(state)@ == (if old(self)@.phase == Phase::Opening {
                old(state)@.disconnected(now_secs)
            } else {
                old(state)@
            }),
            old(self)@.wf() ==> final(self)@.wf(),
    {
        if self.phase == Phase::Opening {
            self.phase = Phase::Closed;
            state.reset_to_disconnected(now_secs);
        }
        BridgeError::Serial(detail)
    }

    /// The query that a poll timer sends when it fires: the token framed for
    /// the wire while the session is active, nothing in any other phase. A
    /// poll is no command in flight: its answer only updates the device state.
    pub fn poll_due(&self, kind: PollKind) -> (r: Option<Vec<u8>>)
        ensures
            r is Some == (self@.phase == Phase::Active),
            r matches Some(bytes) ==> bytes@ == vstd::utf8::encode_utf8(
                crate::codec::framed(kind.token()),
            ),
    {
        if self.phase != Phase::Active {
            return None;
        }
        match kind {
            PollKind::Status => Some(crate::codec::encode_command(STATUS_QUERY)),
            PollKind::Park => Some(crate::codec::encode_command(PARK_QUERY)),
        }
    }

    /// A read during the handshake returned `bytes_read` bytes (`None` where
    /// it timed out or failed). The handshake ends on a line longer than the
    /// banner limit or at the end of its window; the session is then active,
    /// the device state is connected with no error, and the initial status
    /// query is owed. Returns whether that happened.
    pub fn handshake_read(
        &mut self,
        bytes_read: Option<usize>,
        now_ms: u64,
        state: &mut DeviceState,
        now_secs: u64,
    ) -> (r: bool)
        ensures
            r == old(self)@.becomes_active(bytes_read, now_ms),
            final(self)@ == (if r {
                SessionView { phase: Phase::Active, ..old(self)@ }
            } else {
                old(self)@
            }),
            final(state)@ == (if r {
                old(state)@.connected_at(now_secs)
            } else {
                old(state)@
            }),
            old(self)@.wf() ==> final(self)@.wf(),
    {
        if self.phase != Phase::Handshaking {
            return false;
        }
        let long_line = match bytes_read {
            Some(n) => n > BANNER_LINE_LIMIT,
            None => false,
        };
        let window_over = now_ms >= self.handshake_started && now_ms - self.handshake_started
            >= HANDSHAKE_WINDOW_MS;
        if long_line || window_over {
            self.phase = Phase::Active;
            state.connected = true;
            state.clear_error(now_secs);
            true
        } else {
            false
        }
    }

    /// The cancellation signal was seen: the loop ends and the teardown is
    /// owed. A closed session stays closed.
    pub fn cancelled(&mut self)
        ensures
            final(self)@ == old(self)@.cancelled(),
            old(self)@.wf() ==> final(self)@.wf(),
    {
        if self.phase != Phase::Closed {
            self.phase = Phase::Closing;
        }
    }

    /// A command was taken from the submission channel and written to the
    /// device at `now_ms`; `failure` holds the text of the write error if there
    /// was one. A written command is in flight, not yet acknowledged. A failed
    /// write fails this command alone. A command that reaches a session that
    /// is not active fails as closed.
    pub fn command_written(
        &mut self,
        ticket: u64,
        command: String,
        failure: Option<String>,
        now_ms: u64,
    ) -> (r: Option<Resolution>)
        ensures
            final(self)@ == session_after_command(
                old(self)@,
                ticket,
                command@,
                crate::device_state::text_view(failure),
                now_ms,
            ),
            resolution_view(r) == resolution_after_command(
                old(self)@,
                ticket,
                crate::device_state::text_view(failure),
            ),
            old(self)@.wf() ==> final(self)@.wf(),
    {
        if self.phase != Phase::Active {
            return Some(
                Resolution {
                    ticket,
                    result: Err(BridgeError::Device(String::from_str("Connection closed"))),
                },
            );
        }
        match failure {
            Some(detail) => Some(Resolution { ticket, result: Err(BridgeError::Io(detail)) }),
            None => {
                self.pending.register(ticket, command, now_ms);
                None
            },
        }
    }

    /// A read came back while the session serves. A line is classified and
    /// routed; a timeout is no error and fails every command older than the
    /// command timeout; a failed read and the end of the stream end the loop.
    /// In any other phase nothing happens.
    pub fn read_completed(
        &mut self,
        outcome: &ReadOutcome,
        state: &mut DeviceState,
        now_ms: u64,
        now_secs: u64,
    ) -> (r: Vec<Resolution>)
        ensures
            final(self)@ == session_after_read(old(self)@, outcome@, now_ms),
            final(state)@ == state_after_read(old(self)@, old(state)@, outcome@, now_secs),
            resolution_views(r@) == resolutions_after_read(old(self)@, outcome@, now_ms),
            old(self)@.wf() ==> final(self)@.wf(),
    {
        if self.phase != Phase::Active {
            let out: Vec<Resolution> = Vec::new();
            assert(resolution_views(out@) =~= Seq::<ResolutionView>::empty());
            return out;
        }
        match read_response(outcome) {
            Ok(line) => {
                let response = crate::codec::decode_line(line.as_str());
                process_response_with_commands(
                    response,
                    line.as_str(),
                    state,
                    &mut self.pending,
                    now_secs,
                )
            },
            Err(BridgeError::Timeout) => {
                let expired = self.pending.sweep_expired(now_ms);
                fail_entries(expired, &BridgeError::Timeout)
            },
            Err(_) => {
                self.phase = Phase::Closing;
                let out: Vec<Resolution> = Vec::new();
                assert(resolution_views(out@) =~= Seq::<ResolutionView>::empty());
                out
            },
        }
    }

    /// The teardown: the transport has been released and has settled. Every
    /// command still in flight fails as closed, the device state goes back to
    /// its disconnected defaults, and the session is closed.
    pub fn close(&mut self, state: &mut DeviceState, now_secs: u64) -> (r: Vec<Resolution>)
        ensures
            final(self)@ == old(self)@.closed(),
            final(state)@ == old(state)@.disconnected(now_secs),
            resolution_views(r@) == fail_all(old(self)@.pending, connection_closed()),
            final(self)@.wf(),
    {
        self.phase = Phase::Closed;
        let rest = self.pending.drain();
        state.reset_to_disconnected(now_secs);
        fail_entries(rest, &BridgeError::Device(String::from_str("Connection closed")))
    }
}

/// The resolution that a command is owed at once: the failure of its write,
/// or the end of the connection where the session is not active.
pub open spec fn resolution_after_command(
    session: SessionView,
    ticket: u64,
    failure: Option<Seq<char>>,
) -> Seq<ResolutionView> {
    if session.phase != Phase::Active {
        seq![ResolutionView { ticket, result: Err(connection_closed()) }]
    } else {
        match failure {
            Some(detail) => seq![ResolutionView { ticket, result: Err(BridgeErrorView::Io(detail)) }],
            None => Seq::empty(),
        }
    }
}

} // verus!
