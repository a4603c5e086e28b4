//! The life of a session as a sequence of events, and what holds of every
//! such sequence: no command is lost and none is answered twice.

use vstd::prelude::*;
use crate::errors::BridgeErrorView;
use crate::pending::{
    PendingCommandView,
    expired_entries,
    first_acknowledged,
    first_awaiting_ack,
    live_entries,
};
use crate::serial_client::{
    Phase,
    ReadOutcomeView,
    ResolutionView,
    SessionView,
    connection_closed,
    fail_all,
    read_response_spec,
    resolution_after_command,
    resolutions_after_read,
    routed_pending,
    routed_resolutions,
    session_after_command,
    session_after_read,
};
use crate::codec::ParsedResponseView;

verus! {

/// One thing that happens to a session.
pub ghost enum SessionEvent {
    /// The transport was opened.
    Opened { now_ms: u64 },
    /// The transport could not be opened.
    OpenFailed,
    /// A read during the handshake came back.
    HandshakeRead { bytes_read: Option<usize>, now_ms: u64 },
    /// The cancellation signal was seen.
    Cancelled,
    /// A submitted command was written, or failed to be written.
    CommandWritten { ticket: u64, command: Seq<char>, failure: Option<Seq<char>>, now_ms: u64 },
    /// A read came back while the session serves.
    ReadCompleted { outcome: ReadOutcomeView, now_ms: u64 },
    /// The teardown was carried out.
    TornDown,
}

/// The session after one event.
pub open spec fn session_after(session: SessionView, event: SessionEvent) -> SessionView {
    match event {
        SessionEvent::Opened { now_ms } => session.opened(now_ms),
        SessionEvent::OpenFailed => session.open_failed(),
        SessionEvent::HandshakeRead { bytes_read, now_ms } => if session.becomes_active(
            bytes_read,
            now_ms,
        ) {
            SessionView { phase: Phase::Active, ..session }
        } else {
            session
        },
        SessionEvent::Cancelled => session.cancelled(),
        SessionEvent::CommandWritten { ticket, command, failure, now_ms } => session_after_command(
            session,
            ticket,
            command,
            failure,
            now_ms,
        ),
        SessionEvent::ReadCompleted { outcome, now_ms } => session_after_read(
            session,
            outcome,
            now_ms,
        ),
        SessionEvent::TornDown => session.closed(),
    }
}

/// The resolutions that one event brings.
pub open spec fn resolutions_of(session: SessionView, event: SessionEvent) -> Seq<ResolutionView> {
    match event {
        SessionEvent::CommandWritten { ticket, command, failure, now_ms } => resolution_after_command(
            session,
            ticket,
            failure,
        ),
        SessionEvent::ReadCompleted { outcome, now_ms } => resolutions_after_read(
            session,
            outcome,
            now_ms,
        ),
        SessionEvent::TornDown => fail_all(session.pending, connection_closed()),
        _ => Seq::empty(),
    }
}

/// The session after a sequence of events.
pub open spec fn session_after_all(session: SessionView, events: Seq<SessionEvent>) -> SessionView
    decreases events.len(),
{
    if events.len() == 0 {
        session
    } else {
        session_after(session_after_all(session, events.drop_last()), events.last())
    }
}

/// All the resolutions that a sequence of events brings, in order.
pub open spec fn resolutions_of_all(session: SessionView, events: Seq<SessionEvent>) -> Seq<
    ResolutionView,
>
    decreases events.len(),
{
    if events.len() == 0 {
        Seq::empty()
    } else {
        resolutions_of_all(session, events.drop_last()) + resolutions_of(
            session_after_all(session, events.drop_last()),
            events.last(),
        )
    }
}

/// One where the condition holds, zero where it does not.
pub open spec fn one_if(condition: bool) -> nat {
    if condition {
        1
    } else {
        0
    }
}

/// How many of the entries wait under `ticket`.
pub open spec fn waiting(entries: Seq<PendingCommandView>, ticket: u64) -> nat
    decreases entries.len(),
{
    if entries.len() == 0 {
        0
    } else {
        waiting(entries.drop_last(), ticket) + one_if(entries.last().ticket == ticket)
    }
}

/// How many of the resolutions answer `ticket`.
pub open spec fn answered(resolutions: Seq<ResolutionView>, ticket: u64) -> nat
    decreases resolutions.len(),
{
    if resolutions.len() == 0 {
        0
    } else {
        answered(resolutions.drop_last(), ticket) + one_if(resolutions.last().ticket == ticket)
    }
}

/// How often an event submits a command under `ticket`.
pub open spec fn submitted(event: SessionEvent, ticket: u64) -> nat {
    match event {
        SessionEvent::CommandWritten { ticket: t, command, failure, now_ms } => one_if(t == ticket),
        _ => 0,
    }
}

/// How often a sequence of events submits a command under `ticket`.
pub open spec fn submitted_in(events: Seq<SessionEvent>, ticket: u64) -> nat
    decreases events.len(),
{
    if events.len() == 0 {
        0
    } else {
        submitted_in(events.drop_last(), ticket) + submitted(events.last(), ticket)
    }
}

proof fn lemma_waiting_push(entries: Seq<PendingCommandView>, entry: PendingCommandView, ticket: u64)
    ensures
        waiting(entries.push(entry), ticket) == waiting(entries, ticket) + one_if(
            entry.ticket == ticket,
        ),
{
    assert(entries.push(entry).drop_last() =~= entries);
}

proof fn lemma_waiting_remove(entries: Seq<PendingCommandView>, index: int, ticket: u64)
    requires
        0 <= index < entries.len(),
    ensures
        waiting(entries.remove(index), ticket) + one_if(entries[index].ticket == ticket) == waiting(
            entries,
            ticket,
        ),
    decreases entries.len(),
{
    if index == entries.len() - 1 {
        assert(entries.remove(index) =~= entries.drop_last());
    } else {
        let front = entries.drop_last();
        assert(entries.remove(index) =~= front.remove(index).push(entries.last()));
        lemma_waiting_push(front.remove(index), entries.last(), ticket);
        lemma_waiting_remove(front, index, ticket);
    }
}

proof fn lemma_waiting_update(
    entries: Seq<PendingCommandView>,
    index: int,
    entry: PendingCommandView,
    ticket: u64,
)
    requires
        0 <= index < entries.len(),
        entry.ticket == entries[index].ticket,
    ensures
        waiting(entries.update(index, entry), ticket) == waiting(entries, ticket),
    decreases entries.len(),
{
    let updated = entries.update(index, entry);
    if index == entries.len() - 1 {
        assert(updated.drop_last() =~= entries.drop_last());
    } else {
        assert(updated.drop_last() =~= entries.drop_last().update(index, entry));
        lemma_waiting_update(entries.drop_last(), index, entry, ticket);
    }
}

proof fn lemma_waiting_split(entries: Seq<PendingCommandView>, now: u64, ticket: u64)
    ensures
        waiting(live_entries(entries, now), ticket) + waiting(expired_entries(entries, now), ticket)
            == waiting(entries, ticket),
    decreases entries.len(),
{
    if entries.len() > 0 {
        let front = entries.drop_last();
        lemma_waiting_split(front, now, ticket);
        lemma_waiting_push(live_entries(front, now), entries.last(), ticket);
        lemma_waiting_push(expired_entries(front, now), entries.last(), ticket);
    }
}

proof fn lemma_answered_fail_all(
    entries: Seq<PendingCommandView>,
    error: BridgeErrorView,
    ticket: u64,
)
    ensures
        answered(fail_all(entries, error), ticket) == waiting(entries, ticket),
    decreases entries.len(),
{
    if entries.len() > 0 {
        assert(fail_all(entries, error).drop_last() =~= fail_all(entries.drop_last(), error));
        lemma_answered_fail_all(entries.drop_last(), error, ticket);
    }
}

proof fn lemma_answered_concat(first: Seq<ResolutionView>, second: Seq<ResolutionView>, ticket: u64)
    ensures
        answered(first + second, ticket) == answered(first, ticket) + answered(second, ticket),
    decreases second.len(),
{
    if second.len() == 0 {
        assert(first + second =~= first);
    } else {
        assert((first + second).drop_last() =~= first + second.drop_last());
        lemma_answered_concat(first, second.drop_last(), ticket);
    }
}

proof fn lemma_answered_one(resolution: ResolutionView, ticket: u64)
    ensures
        answered(seq![resolution], ticket) == one_if(resolution.ticket == ticket),
{
    let single = seq![resolution];
    assert(single.drop_last() =~= Seq::<ResolutionView>::empty());
    assert(answered(single.drop_last(), ticket) == 0);
    assert(single.last() == resolution);
}

proof fn lemma_first_acknowledged_in_range(entries: Seq<PendingCommandView>, from: int)
    requires
        0 <= from,
    ensures
        first_acknowledged(entries, from) matches Some(i) ==> from <= i < entries.len()
            && entries[i].received_ack,
    decreases entries.len() - from,
{
    if from < entries.len() && !entries[from].received_ack {
        lemma_first_acknowledged_in_range(entries, from + 1);
    }
}

proof fn lemma_first_awaiting_ack_in_range(
    entries: Seq<PendingCommandView>,
    command: Seq<char>,
    from: int,
)
    requires
        0 <= from,
    ensures
        first_awaiting_ack(entries, command, from) matches Some(i) ==> from <= i < entries.len(),
    decreases entries.len() - from,
{
    if from < entries.len() && !entries[from].awaits_ack_of(command) {
        lemma_first_awaiting_ack_in_range(entries, command, from + 1);
    }
}

proof fn lemma_routing_conserves(
    pending: Seq<PendingCommandView>,
    response: ParsedResponseView,
    raw: Seq<char>,
    ticket: u64,
)
    ensures
        waiting(pending, ticket) == waiting(routed_pending(pending, response), ticket) + answered(
            routed_resolutions(pending, response, raw),
            ticket,
        ),
{
    match response {
        ParsedResponseView::Ack { command } => {
            lemma_first_awaiting_ack_in_range(pending, command, 0);
            match first_awaiting_ack(pending, command, 0) {
                Some(i) => {
                    lemma_waiting_update(pending, i, pending[i].acknowledged(), ticket);
                },
                None => {},
            }
        },
        ParsedResponseView::Data { payload } => {
            lemma_first_acknowledged_in_range(pending, 0);
            match first_acknowledged(pending, 0) {
                Some(i) => {
                    lemma_waiting_remove(pending, i, ticket);
                    lemma_answered_one(ResolutionView { ticket: pending[i].ticket, result: Ok(raw) }, ticket);
                },
                None => {},
            }
        },
        ParsedResponseView::Error { message } => {
            if pending.len() > 0 {
                lemma_waiting_remove(pending, 0, ticket);
                lemma_answered_one(
                    ResolutionView {
                        ticket: pending[0].ticket,
                        result: Err(BridgeErrorView::Device(message)),
                    },
                    ticket,
                );
            }
        },
        ParsedResponseView::Unrecognized { notice } => {},
    }
}

/// One event neither loses nor invents a command: what waited before it, and
/// what it submitted, either still waits after it or was answered by it.
pub proof fn lemma_event_conserves_commands(session: SessionView, event: SessionEvent, ticket: u64)
    ensures
        waiting(session.pending, ticket) + submitted(event, ticket) == waiting(
            session_after(session, event).pending,
            ticket,
        ) + answered(resolutions_of(session, event), ticket),
{
    match event {
        SessionEvent::CommandWritten { ticket: t, command, failure, now_ms } => {
            if session.phase == Phase::Active && failure is None {
                lemma_waiting_push(
                    session.pending,
                    PendingCommandView { ticket: t, command, received_ack: false, issued_at: now_ms },
                    ticket,
                );
            } else if session.phase != Phase::Active {
                lemma_answered_one(
                    ResolutionView { ticket: t, result: Err(connection_closed()) },
                    ticket,
                );
            } else {
                lemma_answered_one(
                    ResolutionView {
                        ticket: t,
                        result: Err(BridgeErrorView::Io(failure->Some_0)),
                    },
                    ticket,
                );
            }
        },
        SessionEvent::ReadCompleted { outcome, now_ms } => {
            if session.phase == Phase::Active {
                match read_response_spec(outcome) {
                    Ok(line) => {
                        lemma_routing_conserves(
                            session.pending,
                            crate::codec::decode_line_spec(line),
                            line,
                            ticket,
                        );
                    },
                    Err(BridgeErrorView::Timeout) => {
                        lemma_waiting_split(session.pending, now_ms, ticket);
                        lemma_answered_fail_all(
                            expired_entries(session.pending, now_ms),
                            BridgeErrorView::Timeout,
                            ticket,
                        );
                    },
                    Err(_) => {},
                }
            }
        },
        SessionEvent::TornDown => {
            lemma_answered_fail_all(session.pending, connection_closed(), ticket);
        },
        _ => {},
    }
}

/// The timeout bound. An active session holds a command that was written more
/// than the command timeout ago, neither completed nor failed since. Then the
/// next read that times out fails that command with a timeout and takes it out
/// of the table, and leaves no entry behind that is as old. The waiter itself
/// gives up after the same time, with the same failure.
pub proof fn law_unanswered_command_times_out(
    session: SessionView,
    entry: PendingCommandView,
    now_ms: u64,
)
    requires
        session.phase == Phase::Active,
        session.pending.contains(entry),
        now_ms - entry.issued_at > crate::pending::COMMAND_TIMEOUT_MS,
    ensures
        resolutions_of(
            session,
            SessionEvent::ReadCompleted { outcome: ReadOutcomeView::TimedOut, now_ms },
        ).contains(ResolutionView { ticket: entry.ticket, result: Err(BridgeErrorView::Timeout) }),
        !session_after(
            session,
            SessionEvent::ReadCompleted { outcome: ReadOutcomeView::TimedOut, now_ms },
        ).pending.contains(entry),
        forall|e: PendingCommandView| #[trigger]
            session_after(
                session,
                SessionEvent::ReadCompleted { outcome: ReadOutcomeView::TimedOut, now_ms },
            ).pending.contains(e) ==> !e.expired(now_ms),
        crate::connection_manager::command_outcome_spec(
            crate::connection_manager::ReplyView::TimedOut,
        ) == Err::<Seq<char>, BridgeErrorView>(BridgeErrorView::Timeout),
        crate::pending::COMMAND_TIMEOUT_MS == 15_000,
{
    crate::pending::law_sweep_takes_the_expired(session.pending, now_ms);
    let expired = expired_entries(session.pending, now_ms);
    assert(expired.contains(entry));
    let i = choose|i: int| 0 <= i < expired.len() && expired[i] == entry;
    let failed = fail_all(expired, BridgeErrorView::Timeout);
    assert(failed[i] == ResolutionView { ticket: entry.ticket, result: Err(BridgeErrorView::Timeout) });
}

/// One event keeps a well-formed session well-formed.
pub proof fn lemma_event_keeps_wf(session: SessionView, event: SessionEvent)
    requires
        session.wf(),
    ensures
        session_after(session, event).wf(),
{
}

/// No orphaned and no doubly answered command. Over any sequence of events
/// from the start of a session, and for every ticket: as often as a command
/// was submitted under the ticket, it was either answered or still waits in
/// the table. Once the session is closed nothing waits, so every submitted
/// command has been answered exactly as often as it was submitted: once,
/// where tickets are not reused.
pub proof fn law_every_command_is_resolved_once(events: Seq<SessionEvent>, ticket: u64)
    ensures
        session_after_all(SessionView::fresh(), events).wf(),
        submitted_in(events, ticket) == answered(
            resolutions_of_all(SessionView::fresh(), events),
            ticket,
        ) + waiting(session_after_all(SessionView::fresh(), events).pending, ticket),
        session_after_all(SessionView::fresh(), events).phase == Phase::Closed ==> {
            &&& session_after_all(SessionView::fresh(), events).pending.len() == 0
            &&& answered(resolutions_of_all(SessionView::fresh(), events), ticket) == submitted_in(
                events,
                ticket,
            )
        },
    decreases events.len(),
{
    if events.len() > 0 {
        let before = session_after_all(SessionView::fresh(), events.drop_last());
        law_every_command_is_resolved_once(events.drop_last(), ticket);
        lemma_event_conserves_commands(before, events.last(), ticket);
        lemma_event_keeps_wf(before, events.last());
        lemma_answered_concat(
            resolutions_of_all(SessionView::fresh(), events.drop_last()),
            resolutions_of(before, events.last()),
            ticket,
        );
    }
}

} // verus!
