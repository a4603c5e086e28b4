//! How the serial ports of the machine are described and ranked.
//!
//! Listing the ports is the caller's work. What a port is called, given the
//! kind of port and its USB identifiers, and which ports come first in a list,
//! is decided here.

use vstd::prelude::*;
use crate::device_state::text_view;
use crate::text::{hex4_digits, hex4_text, lowercase_of, occurs_in, text_contains, to_lowercase};

verus! {

/// One serial port, described for a user.
#[derive(Debug, Clone, PartialEq, Eq)]
pub struct PortInfo {
    pub name: String,
    pub description: String,
    pub manufacturer: Option<String>,
    pub vid_pid: Option<String>,
}

/// The mathematical value of a [`PortInfo`].
pub ghost struct PortInfoView {
    pub name: Seq<char>,
    pub description: Seq<char>,
    pub manufacturer: Option<Seq<char>>,
    pub vid_pid: Option<Seq<char>>,
}

impl View for PortInfo {
    type V = PortInfoView;

    open spec fn view(&self) -> PortInfoView {
        PortInfoView {
            name: self.name@,
            description: self.description@,
            manufacturer: text_view(self.manufacturer),
            vid_pid: text_view(self.vid_pid),
        }
    }
}

/// The kind of a serial port, with what the system tells of a USB port.
#[derive(Debug, Clone, PartialEq, Eq)]
pub enum PortKind {
    Usb { vid: u16, pid: u16, manufacturer: Option<String> },
    Bluetooth,
    Pci,
    Unknown,
}

/// The mathematical value of a [`PortKind`].
pub ghost enum PortKindView {
    Usb { vid: u16, pid: u16, manufacturer: Option<Seq<char>> },
    Bluetooth,
    Pci,
    Unknown,
}

impl View for PortKind {
    type V = PortKindView;

    open spec fn view(&self) -> PortKindView {
        match self {
            PortKind::Usb { vid, pid, manufacturer } => PortKindView::Usb {
                vid: *vid,
                pid: *pid,
                manufacturer: text_view(*manufacturer),
            },
            PortKind::Bluetooth => PortKindView::Bluetooth,
            PortKind::Pci => PortKindView::Pci,
            PortKind::Unknown => PortKindView::Unknown,
        }
    }
}

/// The USB identifiers of a port, as text.
pub open spec fn vid_pid_text(vid: u16, pid: u16) -> Seq<char> {
    "VID:"@ + hex4_digits(vid as nat) + " PID:"@ + hex4_digits(pid as nat)
}

/// What a USB port with the given identifiers is called.
pub open spec fn usb_description(vid: u16, pid: u16) -> Seq<char> {
    if vid == 0x2886 {
        "Seeed Studio XIAO nRF52840 (or compatible)"@
    } else if vid == 0x239A {
        "Adafruit/Nordic nRF52840 (or compatible)"@
    } else if vid == 0x1915 && pid == 0x521F {
        "Nordic nRF52840 Development Kit"@
    } else if vid == 0x1A86 {
        "USB Serial Device (CH340) - "@ + vid_pid_text(vid, pid)
    } else if vid == 0x10C4 {
        "USB Serial Device (CP210x) - "@ + vid_pid_text(vid, pid)
    } else if vid == 0x0403 {
        "USB Serial Device (FTDI) - "@ + vid_pid_text(vid, pid)
    } else {
        "USB Serial Device - "@ + vid_pid_text(vid, pid)
    }
}

/// The description of a port named `name` of the given kind.
pub open spec fn described(name: Seq<char>, kind: PortKindView) -> PortInfoView {
    match kind {
        PortKindView::Usb { vid, pid, manufacturer } => PortInfoView {
            name,
            description: usb_description(vid, pid),
            manufacturer,
            vid_pid: Some(vid_pid_text(vid, pid)),
        },
        PortKindView::Bluetooth => PortInfoView {
            name,
            description: "Bluetooth Serial Port"@,
            manufacturer: None,
            vid_pid: None,
        },
        PortKindView::Pci => PortInfoView {
            name,
            description: "PCI Serial Port"@,
            manufacturer: None,
            vid_pid: None,
        },
        PortKindView::Unknown => PortInfoView {
            name,
            description: "Unknown Serial Device"@,
            manufacturer: None,
            vid_pid: None,
        },
    }
}

/// Writes the USB identifiers of a port as text.
pub fn format_vid_pid(vid: u16, pid: u16) -> (r: String)
    ensures
        r@ == vid_pid_text(vid, pid),
{
    let v = hex4_text(vid);
    let p = hex4_text(pid);
    String::from_str("VID:").concat(v.as_str()).concat(" PID:").concat(p.as_str())
}

/// Describes a port: known vendors by name, other USB ports by the chip and
/// the identifiers, the rest by their kind.
pub fn describe_port(name: String, kind: PortKind) -> (r: PortInfo)
    ensures
        r@ == described(name@, kind@),
{
    match kind {
        PortKind::Usb { vid, pid, manufacturer } => {
            let ids = format_vid_pid(vid, pid);
            let description = if vid == 0x2886 {
                String::from_str("Seeed Studio XIAO nRF52840 (or compatible)")
            } else if vid == 0x239A {
                String::from_str("Adafruit/Nordic nRF52840 (or compatible)")
            } else if vid == 0x1915 && pid == 0x521F {
                String::from_str("Nordic nRF52840 Development Kit")
            } else if vid == 0x1A86 {
                String::from_str("USB Serial Device (CH340) - ").concat(ids.as_str())
            } else if vid == 0x10C4 {
                String::from_str("USB Serial Device (CP210x) - ").concat(ids.as_str())
            } else if vid == 0x0403 {
                String::from_str("USB Serial Device (FTDI) - ").concat(ids.as_str())
            } else {
                String::from_str("USB Serial Device - ").concat(ids.as_str())
            };
            PortInfo { name, description, manufacturer, vid_pid: Some(ids) }
        },
        PortKind::Bluetooth => PortInfo {
            name,
            description: String::from_str("Bluetooth Serial Port"),
            manufacturer: None,
            vid_pid: None,
        },
        PortKind::Pci => PortInfo {
            name,
            description: String::from_str("PCI Serial Port"),
            manufacturer: None,
            vid_pid: None,
        },
        PortKind::Unknown => PortInfo {
            name,
            description: String::from_str("Unknown Serial Device"),
            manufacturer: None,
            vid_pid: None,
        },
    }
}

/// The rank of a description that is already in lower case: the higher, the
/// more likely the port is the sensor.
pub open spec fn priority_of(lowered: Seq<char>) -> i32 {
    if occurs_in("xiao"@, lowered) || occurs_in("nrf52840"@, lowered) {
        100
    } else if occurs_in("seeed"@, lowered) || occurs_in("nordic"@, lowered) {
        90
    } else if occurs_in("adafruit"@, lowered) {
        80
    } else if occurs_in("ch340"@, lowered) || occurs_in("cp210"@, lowered) {
        50
    } else if occurs_in("ftdi"@, lowered) {
        40
    } else if occurs_in("bluetooth"@, lowered) {
        10
    } else {
        0
    }
}

/// Ranks a description that is already in lower case.
pub fn priority_of_lowered(lowered: &str) -> (r: i32)
    ensures
        r == priority_of(lowered@),
{
    if text_contains(lowered, "xiao") || text_contains(lowered, "nrf52840") {
        100
    } else if text_contains(lowered, "seeed") || text_contains(lowered, "nordic") {
        90
    } else if text_contains(lowered, "adafruit") {
        80
    } else if text_contains(lowered, "ch340") || text_contains(lowered, "cp210") {
        50
    } else if text_contains(lowered, "ftdi") {
        40
    } else if text_contains(lowered, "bluetooth") {
        10
    } else {
        0
    }
}

/// Ranks a port by its description, whatever its case: the rank is that of
/// the description in lower case.
pub fn get_device_priority(description: &str) -> (r: i32)
    ensures
        r == priority_of(lowercase_of(description@)),
        crate::text::is_ascii_text(description@) ==> r == priority_of(
            crate::text::ascii_lowercase(description@),
        ),
{
    let lowered = to_lowercase(description);
    priority_of_lowered(lowered.as_str())
}

/// The rank of a port.
pub open spec fn rank(port: PortInfoView) -> i32 {
    priority_of(lowercase_of(port.description))
}

/// Where a port goes into a list that is ranked already: before the first
/// port of a lower rank from `from` on, behind every port of its own rank.
pub open spec fn slot_for(ranked: Seq<PortInfoView>, port: PortInfoView, from: int) -> int
    decreases ranked.len() - from,
{
    if from < 0 || from >= ranked.len() {
        ranked.len() as int
    } else if rank(ranked[from]) < rank(port) {
        from
    } else {
        slot_for(ranked, port, from + 1)
    }
}

/// A ranked list with one more port in its place.
pub open spec fn ranked_with(ranked: Seq<PortInfoView>, port: PortInfoView) -> Seq<PortInfoView> {
    ranked.insert(slot_for(ranked, port, 0), port)
}

/// The ports ordered by rank, highest first; ports of one rank keep the order
/// in which they were found.
pub open spec fn ranked_ports(ports: Seq<PortInfoView>) -> Seq<PortInfoView>
    decreases ports.len(),
{
    if ports.len() == 0 {
        Seq::empty()
    } else {
        ranked_with(ranked_ports(ports.drop_last()), ports.last())
    }
}

/// The views of a sequence of ports.
pub open spec fn port_views(ports: Seq<PortInfo>) -> Seq<PortInfoView> {
    ports.map_values(|p: PortInfo| p@)
}

proof fn lemma_slot_in_range(ranked: Seq<PortInfoView>, port: PortInfoView, from: int)
    requires
        0 <= from <= ranked.len(),
    ensures
        from <= slot_for(ranked, port, from) <= ranked.len(),
        forall|k: int| from <= k < slot_for(ranked, port, from) ==> rank(ranked[k]) >= rank(port),
        slot_for(ranked, port, from) < ranked.len() ==> rank(
            ranked[slot_for(ranked, port, from)],
        ) < rank(port),
    decreases ranked.len() - from,
{
    if from < ranked.len() && !(rank(ranked[from]) < rank(port)) {
        lemma_slot_in_range(ranked, port, from + 1);
    }
}

/// No port stands before a port of a higher rank.
pub open spec fn descending(ports: Seq<PortInfoView>) -> bool {
    forall|i: int, j: int| 0 <= i <= j < ports.len() ==> rank(ports[i]) >= rank(ports[j])
}

/// Ranking reorders and nothing else: the ranked list holds the same ports as
/// the list it was made from, each as often, and no port in it stands before
/// a port of a higher rank.
pub proof fn law_ranked_ports_descend(ports: Seq<PortInfoView>)
    ensures
        descending(ranked_ports(ports)),
        ranked_ports(ports).len() == ports.len(),
        ranked_ports(ports).to_multiset() == ports.to_multiset(),
    decreases ports.len(),
{
    if ports.len() == 0 {
        assert(ranked_ports(ports) =~= ports);
    } else {
        let front = ranked_ports(ports.drop_last());
        let port = ports.last();
        law_ranked_ports_descend(ports.drop_last());
        lemma_slot_in_range(front, port, 0);
        let slot = slot_for(front, port, 0);
        let grown = front.insert(slot, port);
        vstd::seq_lib::to_multiset_insert(front, slot, port);
        vstd::seq_lib::to_multiset_build(ports.drop_last(), port);
        assert(ports.drop_last().push(port) =~= ports);
        assert forall|i: int, j: int| 0 <= i <= j < grown.len() implies rank(grown[i]) >= rank(
            grown[j],
        ) by {
            if i < slot && j > slot {
                assert(grown[j] == front[j - 1]);
                assert(rank(front[slot]) < rank(port));
            } else if i > slot {
                assert(grown[i] == front[i - 1]);
                assert(grown[j] == front[j - 1]);
            } else if i == slot && j > slot {
                assert(grown[j] == front[j - 1]);
                assert(rank(front[slot]) >= rank(front[j - 1]));
            }
        }
    }
}

/// Orders the ports by rank, highest first. Ports of one rank keep the order
/// in which they came.
pub fn rank_ports(ports: Vec<PortInfo>) -> (r: Vec<PortInfo>)
    ensures
        port_views(r@) == ranked_ports(port_views(ports@)),
{
    let mut rest = ports;
    let mut out: Vec<PortInfo> = Vec::new();
    let mut ranks: Vec<i32> = Vec::new();
    let ghost all = port_views(ports@);
    let ghost mut done: int = 0;
    assert(all.take(0) =~= Seq::<PortInfoView>::empty());
    assert(port_views(out@) =~= ranked_ports(all.take(0)));
    assert(port_views(rest@) =~= all.skip(0));
    while rest.len() > 0
        invariant
            0 <= done <= all.len(),
            rest.len() + done == all.len(),
            port_views(rest@) == all.skip(done),
            port_views(out@) == ranked_ports(all.take(done)),
            ranks.len() == out.len(),
            forall|k: int| 0 <= k < ranks.len() ==> #[trigger] ranks@[k] == rank(out@[k]@),
        decreases rest.len(),
    {
        let ghost rest_before = port_views(rest@);
        let ghost out_before = port_views(out@);
        proof {
            assert(rest_before[0] == rest@[0]@);
            assert(all.skip(done)[0] == all[done]);
        }
        let port = rest.remove(0);
        let port_rank = get_device_priority(port.description.as_str());
        proof {
            assert(port@ == rest_before[0]);
            assert(port@ == all[done]);
            assert(port_views(rest@).len() == all.skip(done + 1).len());
            assert forall|k: int| 0 <= k < rest@.len() implies #[trigger] port_views(rest@)[k]
                == all.skip(done + 1)[k] by {
                assert(port_views(rest@)[k] == rest_before[k + 1]);
                assert(all.skip(done)[k + 1] == all[done + k + 1]);
            }
            assert(port_views(rest@) =~= all.skip(done + 1));
            assert(all.take(done + 1).drop_last() =~= all.take(done));
            assert(all.take(done + 1).last() == port@);
        }
        let mut slot: usize = 0;
        while slot < out.len() && ranks[slot] >= port_rank
            invariant
                slot <= out.len(),
                ranks.len() == out.len(),
                port_rank == rank(port@),
                out_before == port_views(out@),
                forall|k: int| 0 <= k < ranks.len() ==> #[trigger] ranks@[k] == rank(out@[k]@),
                slot_for(out_before, port@, 0) == slot_for(out_before, port@, slot as int),
            decreases out.len() - slot,
        {
            proof {
                assert(out_before[slot as int] == out@[slot as int]@);
            }
            slot += 1;
        }
        proof {
            if slot < out.len() {
                assert(out_before[slot as int] == out@[slot as int]@);
            }
            assert(slot_for(out_before, port@, 0) == slot);
        }
        out.insert(slot, port);
        ranks.insert(slot, port_rank);
        proof {
            assert(port_views(out@) =~= out_before.insert(slot as int, port@));
            done = done + 1;
        }
    }
    proof {
        assert(all.take(done) =~= all);
    }
    out
}

/// What a user answered when asked to pick one of `count` ports.
#[derive(Debug, Clone, Copy, PartialEq, Eq, Structural)]
pub enum PortChoice {
    /// The answer was zero.
    Cancelled,
    /// The answer named the port at this index of the list.
    Selected(usize),
    /// The answer was no number, or no number of a port.
    Invalid,
}

/// The choice that an answer makes among `count` ports: the answer is read
/// without the whitespace around it, as a decimal number; zero cancels, a
/// number up to `count` picks the port before it in the list.
pub open spec fn choice_of(input: Seq<char>, count: usize) -> PortChoice {
    match crate::text::unsigned_of(crate::text::trimmed(input), usize::MAX as nat) {
        Some(n) => if n == 0 {
            PortChoice::Cancelled
        } else if n <= count {
            PortChoice::Selected((n - 1) as usize)
        } else {
            PortChoice::Invalid
        },
        None => PortChoice::Invalid,
    }
}

/// Reads the answer of a user who was asked to pick one of `count` ports.
pub fn read_port_choice(input: &str, count: usize) -> (r: PortChoice)
    ensures
        r == choice_of(input@, count),
{
    let answer = crate::text::trim_text(input);
    match crate::text::parse_unsigned(answer.as_str(), usize::MAX as u64) {
        Some(n) => {
            if n == 0 {
                PortChoice::Cancelled
            } else if n <= count as u64 {
                PortChoice::Selected((n - 1) as usize)
            } else {
                PortChoice::Invalid
            }
        },
        None => PortChoice::Invalid,
    }
}

/// Whether a description in lower case suggests the sensor or a serial
/// adapter.
pub open spec fn suggests_sensor(lowered: Seq<char>) -> bool {
    occurs_in("usb"@, lowered) || occurs_in("serial"@, lowered) || occurs_in("xiao"@, lowered)
        || occurs_in("nrf52"@, lowered)
}

/// Whether a description that is already in lower case suggests the sensor or
/// a serial adapter.
pub fn suggests_sensor_lowered(lowered: &str) -> (r: bool)
    ensures
        r == suggests_sensor(lowered@),
{
    text_contains(lowered, "usb") || text_contains(lowered, "serial") || text_contains(
        lowered,
        "xiao",
    ) || text_contains(lowered, "nrf52")
}

/// The index of the first port from `from` on whose description suggests the
/// sensor.
pub open spec fn first_candidate(ports: Seq<PortInfoView>, from: int) -> Option<int>
    decreases ports.len() - from,
{
    if from < 0 || from >= ports.len() {
        None
    } else if suggests_sensor(lowercase_of(ports[from].description)) {
        Some(from)
    } else {
        first_candidate(ports, from + 1)
    }
}

/// The port to connect to without being told: the first whose description
/// suggests the sensor, else the first of all, else none.
pub open spec fn auto_selected(ports: Seq<PortInfoView>) -> Option<Seq<char>> {
    match first_candidate(ports, 0) {
        Some(i) => Some(ports[i].name),
        None => if ports.len() > 0 {
            Some(ports[0].name)
        } else {
            None
        },
    }
}

proof fn lemma_first_candidate_in_range(ports: Seq<PortInfoView>, from: int)
    requires
        0 <= from,
    ensures
        first_candidate(ports, from) matches Some(i) ==> from <= i < ports.len(),
    decreases ports.len() - from,
{
    if from < ports.len() && !suggests_sensor(lowercase_of(ports[from].description)) {
        lemma_first_candidate_in_range(ports, from + 1);
    }
}

/// Picks the port to connect to without being told.
pub fn select_auto_port(ports: &Vec<PortInfo>) -> (r: Option<String>)
    ensures
        text_view(r) == auto_selected(port_views(ports@)),
{
    let mut i: usize = 0;
    while i < ports.len()
        invariant
            i <= ports.len(),
            first_candidate(port_views(ports@), 0) == first_candidate(port_views(ports@), i as int),
        decreases ports.len() - i,
    {
        let lowered = to_lowercase(ports[i].description.as_str());
        proof {
            assert(port_views(ports@)[i as int] == ports@[i as int]@);
        }
        if suggests_sensor_lowered(lowered.as_str()) {
            return Some(ports[i].name.clone());
        }
        i += 1;
    }
    if ports.len() > 0 {
        proof {
            assert(port_views(ports@)[0] == ports@[0]@);
        }
        Some(ports[0].name.clone())
    } else {
        None
    }
}

} // verus!
