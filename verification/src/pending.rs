//! The table of commands that were written to the device and wait for their
//! answer.
//!
//! The wire carries no identifier that ties an answer to its command. The
//! table therefore keeps its entries in the order of submission and resolves
//! them oldest first: an acknowledgement marks the oldest unacknowledged entry
//! with that token, data completes the oldest acknowledged entry, an error
//! fails the oldest entry of all. Every entry that leaves the table is handed
//! to the caller, who owes its waiter exactly one answer.

use vstd::prelude::*;
use crate::text::same_text;

verus! {

/// How many milliseconds a submitted command may stay unanswered.
pub const COMMAND_TIMEOUT_MS: u64 = 15_000;

/// One command in flight.
#[derive(Debug, Clone, PartialEq, Eq)]
pub struct PendingCommand {
    /// Names the waiter that is owed the answer.
    pub ticket: u64,
    /// The command token as it was sent.
    pub command: String,
    /// Whether the device has acknowledged the command.
    pub received_ack: bool,
    /// When the command was written, in milliseconds of a monotonic clock.
    pub issued_at: u64,
}

/// The mathematical value of a [`PendingCommand`].
pub ghost struct PendingCommandView {
    pub ticket: u64,
    pub command: Seq<char>,
    pub received_ack: bool,
    pub issued_at: u64,
}

impl View for PendingCommand {
    type V = PendingCommandView;

    open spec fn view(&self) -> PendingCommandView {
        PendingCommandView {
            ticket: self.ticket,
            command: self.command@,
            received_ack: self.received_ack,
            issued_at: self.issued_at,
        }
    }
}

impl PendingCommandView {
    /// The entry is older than the command timeout at `now`.
    pub open spec fn expired(self, now: u64) -> bool {
        now - self.issued_at > COMMAND_TIMEOUT_MS
    }

    /// The entry waits for the acknowledgement of `command`.
    pub open spec fn awaits_ack_of(self, command: Seq<char>) -> bool {
        self.command == command && !self.received_ack
    }

    /// The entry with its acknowledgement noted.
    pub open spec fn acknowledged(self) -> PendingCommandView {
        PendingCommandView { received_ack: true, ..self }
    }
}

/// The views of a sequence of entries.
pub open spec fn entry_views(entries: Seq<PendingCommand>) -> Seq<PendingCommandView> {
    entries.map_values(|e: PendingCommand| e@)
}

/// The view of an optional entry.
pub open spec fn entry_view(entry: Option<PendingCommand>) -> Option<PendingCommandView> {
    match entry {
        Some(e) => Some(e@),
        None => None,
    }
}

/// The index of the first entry from `from` on that waits for the
/// acknowledgement of `command`.
pub open spec fn first_awaiting_ack(entries: Seq<PendingCommandView>, command: Seq<char>, from: int)
    -> Option<int>
    decreases entries.len() - from,
{
    if from < 0 || from >= entries.len() {
        None
    } else if entries[from].awaits_ack_of(command) {
        Some(from)
    } else {
        first_awaiting_ack(entries, command, from + 1)
    }
}

/// The index of the first acknowledged entry from `from` on.
pub open spec fn first_acknowledged(entries: Seq<PendingCommandView>, from: int) -> Option<int>
    decreases entries.len() - from,
{
    if from < 0 || from >= entries.len() {
        None
    } else if entries[from].received_ack {
        Some(from)
    } else {
        first_acknowledged(entries, from + 1)
    }
}

/// The entries that are older than the command timeout at `now`, in order.
pub open spec fn expired_entries(entries: Seq<PendingCommandView>, now: u64) -> Seq<
    PendingCommandView,
>
    decreases entries.len(),
{
    if entries.len() == 0 {
        Seq::empty()
    } else if entries.last().expired(now) {
        expired_entries(entries.drop_last(), now).push(entries.last())
    } else {
        expired_entries(entries.drop_last(), now)
    }
}

/// The entries that are not older than the command timeout at `now`, in order.
pub open spec fn live_entries(entries: Seq<PendingCommandView>, now: u64) -> Seq<
    PendingCommandView,
>
    decreases entries.len(),
{
    if entries.len() == 0 {
        Seq::empty()
    } else if entries.last().expired(now) {
        live_entries(entries.drop_last(), now)
    } else {
        live_entries(entries.drop_last(), now).push(entries.last())
    }
}

/// The table after the acknowledgement of `command` arrived.
pub open spec fn after_ack(entries: Seq<PendingCommandView>, command: Seq<char>) -> Seq<
    PendingCommandView,
> {
    match first_awaiting_ack(entries, command, 0) {
        Some(i) => entries.update(i, entries[i].acknowledged()),
        None => entries,
    }
}

/// The entry that data completes: the oldest acknowledged one.
pub open spec fn completed_entry(entries: Seq<PendingCommandView>) -> Option<PendingCommandView> {
    match first_acknowledged(entries, 0) {
        Some(i) => Some(entries[i]),
        None => None,
    }
}

/// The table after data arrived.
pub open spec fn after_completion(entries: Seq<PendingCommandView>) -> Seq<PendingCommandView> {
    match first_acknowledged(entries, 0) {
        Some(i) => entries.remove(i),
        None => entries,
    }
}

/// The entry that a device error fails: the oldest one.
pub open spec fn failed_entry(entries: Seq<PendingCommandView>) -> Option<PendingCommandView> {
    if entries.len() > 0 {
        Some(entries[0])
    } else {
        None
    }
}

/// The table after a device error arrived.
pub open spec fn after_failure(entries: Seq<PendingCommandView>) -> Seq<PendingCommandView> {
    if entries.len() > 0 {
        entries.remove(0)
    } else {
        entries
    }
}

/// The commands in flight, oldest first.
pub struct PendingTable {
    entries: Vec<PendingCommand>,
}

impl View for PendingTable {
    type V = Seq<PendingCommandView>;

    closed spec fn view(&self) -> Seq<PendingCommandView> {
        entry_views(self.entries@)
    }
}

proof fn lemma_first_awaiting_ack_skips(
    entries: Seq<PendingCommandView>,
    command: Seq<char>,
    upto: int,
)
    requires
        0 <= upto <= entries.len(),
        forall|k: int| 0 <= k < upto ==> !entries[k].awaits_ack_of(command),
    ensures
        first_awaiting_ack(entries, command, 0) == first_awaiting_ack(entries, command, upto),
    decreases upto,
{
    if upto > 0 {
        lemma_first_awaiting_ack_skips(entries, command, upto - 1);
    }
}

proof fn lemma_first_acknowledged_skips(entries: Seq<PendingCommandView>, upto: int)
    requires
        0 <= upto <= entries.len(),
        forall|k: int| 0 <= k < upto ==> !entries[k].received_ack,
    ensures
        first_acknowledged(entries, 0) == first_acknowledged(entries, upto),
    decreases upto,
{
    if upto > 0 {
        lemma_first_acknowledged_skips(entries, upto - 1);
    }
}

/// A sweep takes out exactly the entries that are older than the command
/// timeout: each of them leaves, and each entry that leaves is one of them.
pub proof fn law_sweep_takes_the_expired(entries: Seq<PendingCommandView>, now: u64)
    ensures
        forall|e: PendingCommandView| #[trigger]
            expired_entries(entries, now).contains(e) <==> entries.contains(e) && e.expired(now),
        forall|e: PendingCommandView| #[trigger]
            live_entries(entries, now).contains(e) <==> entries.contains(e) && !e.expired(now),
    decreases entries.len(),
{
    if entries.len() > 0 {
        let front = entries.drop_last();
        let last = entries.last();
        law_sweep_takes_the_expired(front, now);
        assert(entries =~= front.push(last));
        assert forall|e: PendingCommandView| #[trigger]
            expired_entries(entries, now).contains(e) <==> entries.contains(e) && e.expired(
                now,
            ) by {
            lemma_contains_push(front, last, e);
            lemma_contains_push(expired_entries(front, now), last, e);
        }
        assert forall|e: PendingCommandView| #[trigger]
            live_entries(entries, now).contains(e) <==> entries.contains(e) && !e.expired(now) by {
            lemma_contains_push(front, last, e);
            lemma_contains_push(live_entries(front, now), last, e);
        }
    }
}

proof fn lemma_contains_push(
    entries: Seq<PendingCommandView>,
    last: PendingCommandView,
    e: PendingCommandView,
)
    ensures
        entries.push(last).contains(e) <==> entries.contains(e) || e == last,
{
    let pushed = entries.push(last);
    if entries.contains(e) {
        let i = choose|i: int| 0 <= i < entries.len() && entries[i] == e;
        assert(pushed[i] == e);
    }
    if e == last {
        assert(pushed[entries.len() as int] == e);
    }
    if pushed.contains(e) {
        let i = choose|i: int| 0 <= i < pushed.len() && pushed[i] == e;
        if i < entries.len() {
            assert(entries[i] == e);
        }
    }
}

impl PendingTable {
    /// A table with no command in flight.
    pub fn new() -> (r: PendingTable)
        ensures
            r@ == Seq::<PendingCommandView>::empty(),
    {
        let r = PendingTable { entries: Vec::new() };
        assert(r@ =~= Seq::<PendingCommandView>::empty());
        r
    }

    /// How many commands are in flight.
    pub fn len(&self) -> (r: usize)
        ensures
            r == self@.len(),
    {
        self.entries.len()
    }

    /// A copy of the entry at `index`, counted from the oldest.
    pub fn get(&self, index: usize) -> (r: Option<PendingCommand>)
        ensures
            entry_view(r) == (if index < self@.len() {
                Some(self@[index as int])
            } else {
                None
            }),
    {
        if index < self.entries.len() {
            let e = &self.entries[index];
            Some(
                PendingCommand {
                    ticket: e.ticket,
                    command: e.command.clone(),
                    received_ack: e.received_ack,
                    issued_at: e.issued_at,
                },
            )
        } else {
            None
        }
    }

    /// Notes a command that was written to the device at `now`: it becomes
    /// the youngest entry, not yet acknowledged.
    pub fn register(&mut self, ticket: u64, command: String, now: u64)
        ensures
            final(self)@ == old(self)@.push(
                PendingCommandView {
                    ticket,
                    command: command@,
                    received_ack: false,
                    issued_at: now,
                },
            ),
    {
        let entry = PendingCommand { ticket, command, received_ack: false, issued_at: now };
        self.entries.push(entry);
        assert(self@ =~= old(self)@.push(entry@));
    }

    /// Notes the acknowledgement of `command`: the oldest entry with that
    /// token that is not yet acknowledged becomes acknowledged. Returns
    /// whether there was one.
    pub fn acknowledge(&mut self, command: &str) -> (r: bool)
        ensures
            final(self)@ == after_ack(old(self)@, command@),
            r == first_awaiting_ack(old(self)@, command@, 0).is_some(),
    {
        let mut i: usize = 0;
        while i < self.entries.len()
            invariant
                i <= self.entries.len(),
                self.entries@ == old(self).entries@,
                forall|k: int| 0 <= k < i ==> !(#[trigger] self@[k]).awaits_ack_of(command@),
            decreases self.entries.len() - i,
        {
            if !self.entries[i].received_ack && same_text(self.entries[i].command.as_str(), command) {
                proof {
                    lemma_first_awaiting_ack_skips(self@, command@, i as int);
                    assert(self@[i as int].awaits_ack_of(command@));
                }
                let mut entry = self.entries.remove(i);
                entry.received_ack = true;
                self.entries.insert(i, entry);
                assert(self@ =~= old(self)@.update(i as int, old(self)@[i as int].acknowledged()));
                return true;
            }
            i += 1;
        }
        proof {
            lemma_first_awaiting_ack_skips(self@, command@, i as int);
        }
        false
    }

    /// Takes out the entry that data from the device completes: the oldest
    /// acknowledged one. The other entries keep their order.
    pub fn complete_oldest_acknowledged(&mut self) -> (r: Option<PendingCommand>)
        ensures
            entry_view(r) == completed_entry(old(self)@),
            final(self)@ == after_completion(old(self)@),
    {
        let mut i: usize = 0;
        while i < self.entries.len()
            invariant
                i <= self.entries.len(),
                self.entries@ == old(self).entries@,
                forall|k: int| 0 <= k < i ==> !(#[trigger] self@[k]).received_ack,
            decreases self.entries.len() - i,
        {
            if self.entries[i].received_ack {
                proof {
                    lemma_first_acknowledged_skips(self@, i as int);
                    assert(self@[i as int].received_ack);
                }
                let entry = self.entries.remove(i);
                assert(self@ =~= old(self)@.remove(i as int));
                return Some(entry);
            }
            i += 1;
        }
        proof {
            lemma_first_acknowledged_skips(self@, i as int);
        }
        None
    }

    /// Takes out the entry that an error from the device fails: the oldest
    /// one, acknowledged or not.
    pub fn fail_oldest(&mut self) -> (r: Option<PendingCommand>)
        ensures
            entry_view(r) == failed_entry(old(self)@),
            final(self)@ == after_failure(old(self)@),
    {
        if self.entries.len() > 0 {
            let entry = self.entries.remove(0);
            assert(self@ =~= old(self)@.remove(0));
            Some(entry)
        } else {
            None
        }
    }

    /// Takes out every entry that is older than the command timeout at `now`.
    /// Those that stay and those that leave both keep their order.
    pub fn sweep_expired(&mut self, now: u64) -> (r: Vec<PendingCommand>)
        ensures
            entry_views(r@) == expired_entries(old(self)@, now),
            final(self)@ == live_entries(old(self)@, now),
    {
        let mut out: Vec<PendingCommand> = Vec::new();
        let mut i: usize = 0;
        let ghost mut done: int = 0;
        assert(old(self)@.take(0) =~= Seq::<PendingCommandView>::empty());
        assert(self@ =~= live_entries(old(self)@.take(0), now) + old(self)@.skip(0));
        assert(entry_views(out@) =~= expired_entries(old(self)@.take(0), now));
        while i < self.entries.len()
            invariant
                0 <= done <= old(self)@.len(),
                i <= self.entries.len(),
                self.entries.len() - i == old(self)@.len() - done,
                self@ == live_entries(old(self)@.take(done), now) + old(self)@.skip(done),
                i == live_entries(old(self)@.take(done), now).len(),
                entry_views(out@) == expired_entries(old(self)@.take(done), now),
            decreases self.entries.len() - i,
        {
            let ghost before = self@;
            let ghost out_before = entry_views(out@);
            proof {
                let prefix = old(self)@.take(done + 1);
                assert(prefix.drop_last() =~= old(self)@.take(done));
                assert(prefix.last() == old(self)@[done]);
                assert(before[i as int] == old(self)@.skip(done)[0]);
            }
            let issued_at = self.entries[i].issued_at;
            if now > issued_at && now - issued_at > COMMAND_TIMEOUT_MS {
                let entry = self.entries.remove(i);
                out.push(entry);
                proof {
                    assert(entry_views(out@) =~= out_before.push(entry@));
                    assert(self@ =~= before.remove(i as int));
                    assert(before.remove(i as int) =~= live_entries(
                        old(self)@.take(done + 1),
                        now,
                    ) + old(self)@.skip(done + 1));
                }
            } else {
                proof {
                    assert(before =~= live_entries(old(self)@.take(done + 1), now) + old(
                        self,
                    )@.skip(done + 1));
                }
                i += 1;
            }
            proof {
                done = done + 1;
            }
        }
        proof {
            assert(old(self)@.take(done) =~= old(self)@);
            assert(self@ =~= live_entries(old(self)@, now));
        }
        out
    }

    /// Takes out every entry, oldest first, and leaves the table empty.
    pub fn drain(&mut self) -> (r: Vec<PendingCommand>)
        ensures
            entry_views(r@) == old(self)@,
            final(self)@ == Seq::<PendingCommandView>::empty(),
    {
        let mut out: Vec<PendingCommand> = Vec::new();
        std::mem::swap(&mut self.entries, &mut out);
        assert(self@ =~= Seq::<PendingCommandView>::empty());
        out
    }
}

} // verus!
