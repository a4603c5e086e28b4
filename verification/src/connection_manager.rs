//! The connection manager: which session, if any, is the authoritative one.
//!
//! The manager decides; whoever drives it acts. A `connect` or a `disconnect`
//! answers with a plan: the session to retire, if there is one, and the
//! session to start. Retiring comes first and is carried out in full (the
//! command channel closed, the cancellation signalled, the task joined within
//! a bounded wait and aborted where that wait runs out) before the new
//! session opens its transport.

use vstd::prelude::*;
use crate::device_state::{DeviceState, DeviceStateView, text_view};
use crate::errors::{BridgeError, BridgeErrorView};
use crate::pending::COMMAND_TIMEOUT_MS;
use crate::text::{decimal_digits, decimal_text};

verus! {

/// How many milliseconds a retiring session is given to end by itself.
pub const JOIN_TIMEOUT_MS: u64 = 2_000;

/// How many milliseconds are left for cleanup after a session was retired.
pub const RETIRE_SETTLE_MS: u64 = 100;

/// The token that calibrates the sensor.
pub const CALIBRATE_COMMAND: &'static str = "06";

/// The token that takes the present orientation as the park position.
pub const SET_PARK_COMMAND: &'static str = "0D";

/// The token that puts the device back to its factory settings.
pub const FACTORY_RESET_COMMAND: &'static str = "0E";

/// The port and speed of a connection.
#[derive(Debug, Clone, PartialEq, Eq)]
pub struct ConnectionInfo {
    pub port: String,
    pub baud_rate: u32,
}

/// The mathematical value of a [`ConnectionInfo`].
pub ghost struct ConnectionInfoView {
    pub port: Seq<char>,
    pub baud_rate: u32,
}

impl View for ConnectionInfo {
    type V = ConnectionInfoView;

    open spec fn view(&self) -> ConnectionInfoView {
        ConnectionInfoView { port: self.port@, baud_rate: self.baud_rate }
    }
}

/// One connection attempt, as the manager knows it. The task, the
/// cancellation signal and the command channel that belong to it are kept by
/// the caller under the same `id`.
#[derive(Debug, Clone, PartialEq, Eq)]
pub struct SessionHandle {
    pub id: u64,
    pub port: String,
    pub baud_rate: u32,
}

/// The mathematical value of a [`SessionHandle`].
pub ghost struct SessionHandleView {
    pub id: u64,
    pub port: Seq<char>,
    pub baud_rate: u32,
}

impl View for SessionHandle {
    type V = SessionHandleView;

    open spec fn view(&self) -> SessionHandleView {
        SessionHandleView { id: self.id, port: self.port@, baud_rate: self.baud_rate }
    }
}

/// The view of an optional handle.
pub open spec fn handle_view(handle: Option<SessionHandle>) -> Option<SessionHandleView> {
    match handle {
        Some(h) => Some(h@),
        None => None,
    }
}

/// How to retire a session: close its command channel, signal its
/// cancellation, join its task for at most `join_timeout_ms`, abort the task
/// if it still runs, then wait `settle_ms`.
#[derive(Debug, Clone, Copy, PartialEq, Eq, Structural)]
pub struct RetirePlan {
    pub session: u64,
    pub join_timeout_ms: u64,
    pub settle_ms: u64,
}

/// The plan that retires the session `session`.
pub open spec fn retire_plan(session: u64) -> RetirePlan {
    RetirePlan { session, join_timeout_ms: JOIN_TIMEOUT_MS, settle_ms: RETIRE_SETTLE_MS }
}

/// The plan that retires the session of an optional handle.
pub open spec fn retire_current(current: Option<SessionHandleView>) -> Option<RetirePlan> {
    match current {
        Some(handle) => Some(retire_plan(handle.id)),
        None => None,
    }
}

/// What a `connect` asks of the caller: first retire, then start.
#[derive(Debug, Clone, PartialEq, Eq)]
pub struct ConnectPlan {
    /// The session to retire before anything else.
    pub retire: Option<RetirePlan>,
    /// The session to start once the old one is gone.
    pub start: SessionHandle,
    /// The sentence to show for the attempt.
    pub message: String,
}

/// The mathematical value of a [`ConnectPlan`].
pub ghost struct ConnectPlanView {
    pub retire: Option<RetirePlan>,
    pub start: SessionHandleView,
    pub message: Seq<char>,
}

impl View for ConnectPlan {
    type V = ConnectPlanView;

    open spec fn view(&self) -> ConnectPlanView {
        ConnectPlanView { retire: self.retire, start: self.start@, message: self.message@ }
    }
}

/// What a `disconnect` asks of the caller.
#[derive(Debug, Clone, PartialEq, Eq)]
pub struct DisconnectPlan {
    /// The session to retire, if one was active.
    pub retire: Option<RetirePlan>,
    /// The sentence to show.
    pub message: String,
}

/// The mathematical value of a [`DisconnectPlan`].
pub ghost struct DisconnectPlanView {
    pub retire: Option<RetirePlan>,
    pub message: Seq<char>,
}

impl View for DisconnectPlan {
    type V = DisconnectPlanView;

    open spec fn view(&self) -> DisconnectPlanView {
        DisconnectPlanView { retire: self.retire, message: self.message@ }
    }
}

/// A command on its way into the active session.
#[derive(Debug, Clone, PartialEq, Eq)]
pub struct CommandRequest {
    /// The command token.
    pub command: String,
    /// Names the waiter that is owed the answer.
    pub ticket: u64,
    /// The session that is to carry the command.
    pub session: u64,
    /// How many milliseconds the waiter waits for the answer.
    pub timeout_ms: u64,
}

/// The mathematical value of a [`CommandRequest`].
pub ghost struct CommandRequestView {
    pub command: Seq<char>,
    pub ticket: u64,
    pub session: u64,
    pub timeout_ms: u64,
}

impl View for CommandRequest {
    type V = CommandRequestView;

    open spec fn view(&self) -> CommandRequestView {
        CommandRequestView {
            command: self.command@,
            ticket: self.ticket,
            session: self.session,
            timeout_ms: self.timeout_ms,
        }
    }
}

/// The sentence that reports a connection attempt.
pub open spec fn connecting_message(port: Seq<char>, baud_rate: u32) -> Seq<char> {
    "Connecting to nRF52840 device on "@ + port + " at "@ + decimal_digits(baud_rate as nat)
        + " baud"@
}

/// The sentence that reports a disconnect.
pub open spec fn disconnected_message() -> Seq<char> {
    "Disconnected from nRF52840 device and cleared all data"@
}

/// How the wait for the answer to a command ended.
#[derive(Debug, PartialEq, Eq)]
pub enum Reply {
    /// The session resolved the command.
    Answered(Result<String, BridgeError>),
    /// The command could not be handed to the session: its channel is closed.
    NotAccepted,
    /// The session dropped the command without an answer.
    Dropped,
    /// The wait ran out.
    TimedOut,
}

/// The mathematical value of a [`Reply`].
pub ghost enum ReplyView {
    Answered(Result<Seq<char>, BridgeErrorView>),
    NotAccepted,
    Dropped,
    TimedOut,
}

impl View for Reply {
    type V = ReplyView;

    open spec fn view(&self) -> ReplyView {
        match self {
            Reply::Answered(Ok(text)) => ReplyView::Answered(Ok(text@)),
            Reply::Answered(Err(error)) => ReplyView::Answered(Err(error@)),
            Reply::NotAccepted => ReplyView::NotAccepted,
            Reply::Dropped => ReplyView::Dropped,
            Reply::TimedOut => ReplyView::TimedOut,
        }
    }
}

/// The view of the result of a command.
pub open spec fn outcome_view(result: Result<String, BridgeError>) -> Result<
    Seq<char>,
    BridgeErrorView,
> {
    match result {
        Ok(text) => Ok(text@),
        Err(error) => Err(error@),
    }
}

/// What the caller of a command is told.
pub open spec fn command_outcome_spec(reply: ReplyView) -> Result<Seq<char>, BridgeErrorView> {
    match reply {
        ReplyView::Answered(result) => result,
        ReplyView::NotAccepted => Err(BridgeErrorView::Device("Command channel closed"@)),
        ReplyView::Dropped => Err(BridgeErrorView::Device("Command response channel closed"@)),
        ReplyView::TimedOut => Err(BridgeErrorView::Timeout),
    }
}

/// Turns the end of the wait for an answer into what the caller is told: the
/// session's answer as it is, a device failure where a channel was closed, a
/// timeout where the wait ran out.
pub fn command_outcome(reply: Reply) -> (r: Result<String, BridgeError>)
    ensures
        outcome_view(r) == command_outcome_spec(reply@),
{
    match reply {
        Reply::Answered(result) => result,
        Reply::NotAccepted => Err(BridgeError::Device(String::from_str("Command channel closed"))),
        Reply::Dropped => Err(
            BridgeError::Device(String::from_str("Command response channel closed")),
        ),
        Reply::TimedOut => Err(BridgeError::Timeout),
    }
}

/// Supervises the sessions over time. At most one session is current.
pub struct ConnectionManager {
    current: Option<SessionHandle>,
    next_session: u64,
    next_ticket: u64,
}

/// The mathematical value of a [`ConnectionManager`].
pub ghost struct ConnectionManagerView {
    /// The authoritative session, if there is one.
    pub current: Option<SessionHandleView>,
    /// The identifier that the next session gets.
    pub next_session: u64,
    /// The ticket that the next command gets.
    pub next_ticket: u64,
}

impl View for ConnectionManager {
    type V = ConnectionManagerView;

    closed spec fn view(&self) -> ConnectionManagerView {
        ConnectionManagerView {
            current: handle_view(self.current),
            next_session: self.next_session,
            next_ticket: self.next_ticket,
        }
    }
}

/// The number after `n`, starting over at zero after the largest.
pub open spec fn successor(n: u64) -> u64 {
    if n == u64::MAX {
        0
    } else {
        (n + 1) as u64
    }
}

impl ConnectionManagerView {
    /// A manager without a session.
    pub open spec fn initial() -> ConnectionManagerView {
        ConnectionManagerView { current: None, next_session: 0, next_ticket: 0 }
    }

    /// The identifier that the next session gets is the one after that of the
    /// current session: a new session never carries the identifier of the
    /// session that it replaces.
    pub open spec fn wf(self) -> bool {
        self.current matches Some(handle) ==> self.next_session == successor(handle.id)
    }

    /// Whether `session` is the current session.
    pub open spec fn is_current(self, session: u64) -> bool {
        self.current matches Some(handle) && handle.id == session
    }

    /// The manager after the session `session` ended by itself, or could not
    /// open its transport: where it was the current one, there is none now.
    pub open spec fn without_session(self, session: u64) -> ConnectionManagerView {
        if self.is_current(session) {
            self.disconnected()
        } else {
            self
        }
    }

    /// The session that a `connect` starts.
    pub open spec fn started(self, port: Seq<char>, baud_rate: u32) -> SessionHandleView {
        SessionHandleView { id: self.next_session, port, baud_rate }
    }

    /// The manager after a `connect`.
    pub open spec fn connected(self, port: Seq<char>, baud_rate: u32) -> ConnectionManagerView {
        ConnectionManagerView {
            current: Some(self.started(port, baud_rate)),
            next_session: successor(self.next_session),
            ..self
        }
    }

    /// The plan of a `connect`.
    pub open spec fn connect_plan(self, port: Seq<char>, baud_rate: u32) -> ConnectPlanView {
        ConnectPlanView {
            retire: retire_current(self.current),
            start: self.started(port, baud_rate),
            message: connecting_message(port, baud_rate),
        }
    }

    /// The manager after a `disconnect`.
    pub open spec fn disconnected(self) -> ConnectionManagerView {
        ConnectionManagerView { current: None, ..self }
    }

    /// The plan of a `disconnect`.
    pub open spec fn disconnect_plan(self) -> DisconnectPlanView {
        DisconnectPlanView { retire: retire_current(self.current), message: disconnected_message() }
    }

    /// The request that submits `command`, or the failure where no session is
    /// active.
    pub open spec fn submission(self, command: Seq<char>) -> Result<
        CommandRequestView,
        BridgeErrorView,
    > {
        match self.current {
            Some(handle) => Ok(
                CommandRequestView {
                    command,
                    ticket: self.next_ticket,
                    session: handle.id,
                    timeout_ms: COMMAND_TIMEOUT_MS,
                },
            ),
            None => Err(BridgeErrorView::NotConnected),
        }
    }

    /// The manager after `command` was submitted.
    pub open spec fn submitted(self) -> ConnectionManagerView {
        match self.current {
            Some(_) => ConnectionManagerView { next_ticket: successor(self.next_ticket), ..self },
            None => self,
        }
    }
}

impl DeviceStateView {
    /// The record after a `connect` to `port` at `now`.
    pub open spec fn targeting(self, port: Seq<char>, now: u64) -> DeviceStateView {
        DeviceStateView { serial_port: Some(port), error_message: None, last_update: now, ..self }
    }
}

/// The view of the result of a submission.
pub open spec fn submission_view(result: Result<CommandRequest, BridgeError>) -> Result<
    CommandRequestView,
    BridgeErrorView,
> {
    match result {
        Ok(request) => Ok(request@),
        Err(error) => Err(error@),
    }
}

/// The view of an optional connection.
pub open spec fn connection_view(info: Option<ConnectionInfo>) -> Option<ConnectionInfoView> {
    match info {
        Some(i) => Some(i@),
        None => None,
    }
}

fn next_after(n: u64) -> (r: u64)
    ensures
        r == successor(n),
{
    if n == u64::MAX {
        0
    } else {
        n + 1
    }
}

fn retiring(current: &Option<SessionHandle>) -> (r: Option<RetirePlan>)
    ensures
        r == retire_current(handle_view(*current)),
{
    match current {
        Some(handle) => Some(
            RetirePlan {
                session: handle.id,
                join_timeout_ms: JOIN_TIMEOUT_MS,
                settle_ms: RETIRE_SETTLE_MS,
            },
        ),
        None => None,
    }
}

impl DeviceState {
    /// Names the port of a connection attempt in the record and forgets the
    /// last failure.
    pub fn target(&mut self, port: &str, now: u64)
        ensures
            final(self)@ == old(self)@.targeting(port@, now),
    {
        self.serial_port = Some(String::from_str(port));
        self.clear_error(now);
    }
}

impl ConnectionManager {
    #[verifier::type_invariant]
    spec fn fresh_identifiers(self) -> bool {
        self@.wf()
    }

    /// A manager without a session.
    pub fn new() -> (r: ConnectionManager)
        ensures
            r@ == ConnectionManagerView::initial(),
            r@.wf(),
    {
        ConnectionManager { current: None, next_session: 0, next_ticket: 0 }
    }

    /// Replaces the current session, if there is one, by a new session for
    /// `port` at `baud_rate`. The plan names the session to retire first and
    /// the session to start after it; the new session is the current one from
    /// here on, under an identifier that differs from that of the session it
    /// replaces. The device state names the port and shows no error. The call
    /// does not wait for the handshake; where the transport cannot be opened,
    /// the caller reports that with [`ConnectionManager::open_failed`].
    pub fn connect(&mut self, port: String, baud_rate: u32, state: &mut DeviceState, now_secs: u64)
        -> (r: ConnectPlan)
        ensures
            r@ == old(self)@.connect_plan(port@, baud_rate),
            final(self)@ == old(self)@.connected(port@, baud_rate),
            final(state)@ == old(state)@.targeting(port@, now_secs),
            old(self)@.wf(),
            final(self)@.wf(),
            old(self)@.current matches Some(handle) ==> r@.start.id != handle.id,
            r@.retire matches Some(plan) ==> r@.start.id != plan.session,
    {
        proof {
            use_type_invariant(&*self);
        }
        let retire = retiring(&self.current);
        let id = self.next_session;
        *self = ConnectionManager {
            current: Some(SessionHandle { id, port: port.clone(), baud_rate }),
            next_session: next_after(id),
            next_ticket: self.next_ticket,
        };
        state.target(port.as_str(), now_secs);
        let digits = decimal_text(baud_rate as u64);
        let message = String::from_str("Connecting to nRF52840 device on ").concat(
            port.as_str(),
        ).concat(" at ").concat(digits.as_str()).concat(" baud");
        ConnectPlan { retire, start: SessionHandle { id, port, baud_rate }, message }
    }

    /// The transport of the session `session` could not be opened. The
    /// failure goes to the caller of `connect`: where that session is the
    /// current one, no session is current any more, so that a command is
    /// turned down as not connected. The device state goes back to its
    /// disconnected defaults. Returns the failure to surface.
    pub fn open_failed(
        &mut self,
        session: u64,
        detail: String,
        state: &mut DeviceState,
        now_secs: u64,
    ) -> (r: BridgeError)
        ensures
            r@ == BridgeErrorView::Serial(detail@),
            final(self)@ == old(self)@.without_session(session),
            final(state)@ == old(state)@.disconnected(now_secs),
            final(state)@.is_disconnected(),
            final(self)@.wf(),
    {
        self.session_ended(session);
        state.reset_to_disconnected(now_secs);
        BridgeError::Serial(detail)
    }

    /// The session `session` has ended by itself: its loop has left on a
    /// failed read or at the end of the stream and its teardown is done. Where
    /// it is the current session, no session is current any more; a session
    /// that was replaced in the meantime changes nothing.
    pub fn session_ended(&mut self, session: u64)
        ensures
            final(self)@ == old(self)@.without_session(session),
            final(self)@.wf(),
    {
        proof {
            use_type_invariant(&*self);
        }
        let is_current = match &self.current {
            Some(handle) => handle.id == session,
            None => false,
        };
        if is_current {
            self.current = None;
        }
    }

    /// Retires the current session, if there is one, and puts the device
    /// state back to its disconnected defaults. Succeeds with no session too:
    /// the plan then retires nothing.
    pub fn disconnect(&mut self, state: &mut DeviceState, now_secs: u64) -> (r: DisconnectPlan)
        ensures
            r@ == old(self)@.disconnect_plan(),
            final(self)@ == old(self)@.disconnected(),
            final(state)@ == old(state)@.disconnected(now_secs),
            final(state)@.is_disconnected(),
            final(self)@.wf(),
    {
        let retire = retiring(&self.current);
        self.current = None;
        state.reset_to_disconnected(now_secs);
        DisconnectPlan {
            retire,
            message: String::from_str("Disconnected from nRF52840 device and cleared all data"),
        }
    }

    /// Submits a command: the call fails at once as not connected exactly
    /// where no session is current, which is so before the first `connect`,
    /// after a `disconnect`, after a failed open and after the session has
    /// ended by itself. With a session it answers with the request to hand to
    /// that session, under a fresh ticket, and with the time to wait for the
    /// answer.
    pub fn send_command(&mut self, command: &str) -> (r: Result<CommandRequest, BridgeError>)
        ensures
            submission_view(r) == old(self)@.submission(command@),
            final(self)@ == old(self)@.submitted(),
            final(self)@.wf(),
    {
        proof {
            use_type_invariant(&*self);
        }
        match &self.current {
            None => Err(BridgeError::NotConnected),
            Some(handle) => {
                let ticket = self.next_ticket;
                let session = handle.id;
                self.next_ticket = next_after(ticket);
                Ok(
                    CommandRequest {
                        command: String::from_str(command),
                        ticket,
                        session,
                        timeout_ms: COMMAND_TIMEOUT_MS,
                    },
                )
            },
        }
    }

    /// Submits the command that calibrates the sensor.
    pub fn calibrate_sensor(&mut self) -> (r: Result<CommandRequest, BridgeError>)
        ensures
            submission_view(r) == old(self)@.submission(CALIBRATE_COMMAND@),
            final(self)@ == old(self)@.submitted(),
    {
        self.send_command(CALIBRATE_COMMAND)
    }

    /// Submits the command that takes the present orientation as the park
    /// position.
    pub fn set_park_position(&mut self) -> (r: Result<CommandRequest, BridgeError>)
        ensures
            submission_view(r) == old(self)@.submission(SET_PARK_COMMAND@),
            final(self)@ == old(self)@.submitted(),
    {
        self.send_command(SET_PARK_COMMAND)
    }

    /// Submits the command that puts the device back to its factory settings.
    pub fn factory_reset(&mut self) -> (r: Result<CommandRequest, BridgeError>)
        ensures
            submission_view(r) == old(self)@.submission(FACTORY_RESET_COMMAND@),
            final(self)@ == old(self)@.submitted(),
    {
        self.send_command(FACTORY_RESET_COMMAND)
    }

    /// Whether the device is connected: the flag of the device state, not the
    /// mere existence of a session, which may still be opening its transport.
    pub fn is_connected(&self, state: &DeviceState) -> (r: bool)
        ensures
            r == state@.connected,
    {
        state.connected
    }

    /// The port and speed of the current session.
    pub fn get_current_connection(&self) -> (r: Option<ConnectionInfo>)
        ensures
            connection_view(r) == (match self@.current {
                Some(handle) => Some(
                    ConnectionInfoView { port: handle.port, baud_rate: handle.baud_rate },
                ),
                None => None,
            }),
    {
        match &self.current {
            Some(handle) => Some(
                ConnectionInfo { port: handle.port.clone(), baud_rate: handle.baud_rate },
            ),
            None => None,
        }
    }

    /// The port of the current session.
    pub fn get_current_port(&self) -> (r: Option<String>)
        ensures
            text_view(r) == (match self@.current {
                Some(handle) => Some(handle.port),
                None => None,
            }),
    {
        match &self.current {
            Some(handle) => Some(handle.port.clone()),
            None => None,
        }
    }

    /// The identifier of the current session.
    pub fn current_session(&self) -> (r: Option<u64>)
        ensures
            r == (match self@.current {
                Some(handle) => Some(handle.id),
                None => None,
            }),
    {
        match &self.current {
            Some(handle) => Some(handle.id),
            None => None,
        }
    }
}

/// One request to the manager.
pub ghost enum ManagerRequest {
    Connect { port: Seq<char>, baud_rate: u32 },
    Disconnect,
    /// The driver reports that the session could not open its transport.
    OpenFailed { session: u64 },
    /// The driver reports that the session has ended by itself.
    SessionEnded { session: u64 },
}

/// The sessions that hold a transport once a retirement was carried out.
pub open spec fn after_retiring(running: Set<u64>, retire: Option<RetirePlan>) -> Set<u64> {
    match retire {
        Some(plan) => running.remove(plan.session),
        None => running,
    }
}

/// The manager after one request.
pub open spec fn manager_after(manager: ConnectionManagerView, request: ManagerRequest)
    -> ConnectionManagerView {
    match request {
        ManagerRequest::Connect { port, baud_rate } => manager.connected(port, baud_rate),
        ManagerRequest::Disconnect => manager.disconnected(),
        ManagerRequest::OpenFailed { session } => manager.without_session(session),
        ManagerRequest::SessionEnded { session } => manager.without_session(session),
    }
}

/// The sessions that hold a transport after the plan of one request was
/// carried out: the retirement first, then the start. A session that the
/// driver reports as failed or ended holds no transport any more.
pub open spec fn running_after(
    manager: ConnectionManagerView,
    running: Set<u64>,
    request: ManagerRequest,
) -> Set<u64> {
    match request {
        ManagerRequest::Connect { port, baud_rate } => after_retiring(
            running,
            manager.connect_plan(port, baud_rate).retire,
        ).insert(manager.connect_plan(port, baud_rate).start.id),
        ManagerRequest::Disconnect => after_retiring(running, manager.disconnect_plan().retire),
        ManagerRequest::OpenFailed { session } => running.remove(session),
        ManagerRequest::SessionEnded { session } => running.remove(session),
    }
}

/// The manager after a sequence of requests.
pub open spec fn manager_after_all(manager: ConnectionManagerView, requests: Seq<ManagerRequest>)
    -> ConnectionManagerView
    decreases requests.len(),
{
    if requests.len() == 0 {
        manager
    } else {
        manager_after(manager_after_all(manager, requests.drop_last()), requests.last())
    }
}

/// The sessions that hold a transport after the plans of a sequence of
/// requests were carried out in order.
pub open spec fn running_after_all(
    manager: ConnectionManagerView,
    running: Set<u64>,
    requests: Seq<ManagerRequest>,
) -> Set<u64>
    decreases requests.len(),
{
    if requests.len() == 0 {
        running
    } else {
        running_after(
            manager_after_all(manager, requests.drop_last()),
            running_after_all(manager, running, requests.drop_last()),
            requests.last(),
        )
    }
}

/// The sessions that hold a transport are exactly the current one.
pub open spec fn only_current_runs(manager: ConnectionManagerView, running: Set<u64>) -> bool {
    running == (match manager.current {
        Some(handle) => Set::<u64>::empty().insert(handle.id),
        None => Set::<u64>::empty(),
    })
}

/// One request keeps the sessions that run equal to the current session, and
/// its retirement leaves no session running before the new one starts.
pub proof fn lemma_request_keeps_one_session(
    manager: ConnectionManagerView,
    running: Set<u64>,
    request: ManagerRequest,
)
    requires
        only_current_runs(manager, running),
        manager.wf(),
    ensures
        only_current_runs(manager_after(manager, request), running_after(manager, running, request)),
        manager_after(manager, request).wf(),
        after_retiring(running, retire_current(manager.current)) == Set::<u64>::empty(),
{
    assert(after_retiring(running, retire_current(manager.current)) =~= Set::<u64>::empty());
    match request {
        ManagerRequest::Connect { port, baud_rate } => {
            assert(running_after(manager, running, request) =~= Set::<u64>::empty().insert(
                manager.next_session,
            ));
        },
        ManagerRequest::Disconnect => {},
        ManagerRequest::OpenFailed { session } => {
            assert(running_after(manager, running, request) =~= (if manager.is_current(session) {
                Set::<u64>::empty()
            } else {
                running
            }));
        },
        ManagerRequest::SessionEnded { session } => {
            assert(running_after(manager, running, request) =~= (if manager.is_current(session) {
                Set::<u64>::empty()
            } else {
                running
            }));
        },
    }
}

/// A session that has gone takes no command. Once the current session could
/// not open its transport, or has ended by itself, or was disconnected, a
/// command is turned down as not connected; and a command is turned down so
/// only where no session is current.
pub proof fn law_not_connected_without_a_session(
    manager: ConnectionManagerView,
    session: u64,
    command: Seq<char>,
)
    ensures
        manager.is_current(session) ==> manager.without_session(session).submission(command)
            == Err::<CommandRequestView, BridgeErrorView>(BridgeErrorView::NotConnected),
        manager.disconnected().submission(command) == Err::<CommandRequestView, BridgeErrorView>(
            BridgeErrorView::NotConnected,
        ),
        ConnectionManagerView::initial().submission(command) == Err::<
            CommandRequestView,
            BridgeErrorView,
        >(BridgeErrorView::NotConnected),
        manager.submission(command) is Err <==> manager.current is None,
        !manager.is_current(session) ==> manager.without_session(session) == manager,
{
}

/// A new session never carries the identifier of the session it replaces.
pub proof fn law_new_session_has_a_new_identifier(
    manager: ConnectionManagerView,
    port: Seq<char>,
    baud_rate: u32,
)
    requires
        manager.wf(),
    ensures
        manager.connected(port, baud_rate).wf(),
        manager.current matches Some(handle) ==> manager.connect_plan(port, baud_rate).start.id
            != handle.id,
        manager.disconnected().wf(),
        manager.submitted().wf(),
        ConnectionManagerView::initial().wf(),
{
}

/// At most one session. Over any sequence of requests to a new manager
/// (`connect`, `disconnect`, and the driver's reports of a failed open and of
/// a session that ended), with every plan carried out in its order, the
/// sessions that hold a transport are the current session and no other: never
/// more than one.
pub proof fn law_at_most_one_session(requests: Seq<ManagerRequest>)
    ensures
        only_current_runs(
            manager_after_all(ConnectionManagerView::initial(), requests),
            running_after_all(ConnectionManagerView::initial(), Set::empty(), requests),
        ),
        manager_after_all(ConnectionManagerView::initial(), requests).wf(),
        running_after_all(ConnectionManagerView::initial(), Set::empty(), requests).finite(),
        running_after_all(ConnectionManagerView::initial(), Set::empty(), requests).len() <= 1,
    decreases requests.len(),
{
    let manager = manager_after_all(ConnectionManagerView::initial(), requests);
    let running = running_after_all(ConnectionManagerView::initial(), Set::empty(), requests);
    if requests.len() > 0 {
        law_at_most_one_session(requests.drop_last());
        lemma_request_keeps_one_session(
            manager_after_all(ConnectionManagerView::initial(), requests.drop_last()),
            running_after_all(ConnectionManagerView::initial(), Set::empty(), requests.drop_last()),
            requests.last(),
        );
    }
    match manager.current {
        Some(handle) => {
            assert(running == Set::<u64>::empty().insert(handle.id));
        },
        None => {},
    }
}

/// A `disconnect` with no session is a no-op that succeeds: it retires
/// nothing and leaves the manager as it was. After any `disconnect` a second
/// one at the same time changes nothing more.
pub proof fn law_disconnect_is_idempotent(
    manager: ConnectionManagerView,
    state: DeviceStateView,
    now: u64,
)
    ensures
        manager.current is None ==> manager.disconnect_plan().retire is None
            && manager.disconnected() == manager,
        manager.disconnected().disconnect_plan().retire is None,
        manager.disconnected().disconnected() == manager.disconnected(),
        state.disconnected(now).is_disconnected(),
        state.disconnected(now).disconnected(now) == state.disconnected(now),
{
}

/// Whether the task of a retiring session has to be aborted: it has, where
/// the bounded join ran out before the task ended.
pub fn must_abort(joined_in_time: bool) -> (r: bool)
    ensures
        r == !joined_in_time,
{
    !joined_in_time
}

} // verus!
