//! Change detection for a client that polls the controller: every register
//! whose value differs between two polls becomes an event.

use vstd::prelude::*;

verus! {

/// A register that changed value at a poll.
#[derive(Debug, Clone, Copy, PartialEq, Eq, Structural)]
pub struct Event {
    /// The time of the poll, in milliseconds since the epoch.
    pub utc_ms: u64,
    /// Whether the register is a coil; a holding register otherwise.
    pub coil: bool,
    /// The register's address in its bank.
    pub address: u16,
    /// The register's new value.
    pub state: u16,
}

/// The event for register `index` of a bank that now holds `state`.
pub open spec fn event_at(utc_ms: u64, coil: bool, index: int, state: u16) -> Event {
    Event { utc_ms, coil, address: (index % 65536) as u16, state }
}

/// The events for the holding registers that differ between `prev` and
/// `new`, over the cells that both hold, in address order.
pub open spec fn holding_events(utc_ms: u64, prev: Seq<u16>, new: Seq<u16>, n: int) -> Seq<Event>
    decreases n,
{
    if n <= 0 {
        Seq::empty()
    } else {
        let before = holding_events(utc_ms, prev, new, n - 1);
        if prev[n - 1] != new[n - 1] {
            before.push(event_at(utc_ms, false, n - 1, new[n - 1]))
        } else {
            before
        }
    }
}

/// The events for the coils that differ between `prev` and `new`, over the
/// cells that both hold, in address order; an event's state is 1 for a coil
/// that is now on and 0 for one now off.
pub open spec fn coil_events(utc_ms: u64, prev: Seq<bool>, new: Seq<bool>, n: int) -> Seq<Event>
    decreases n,
{
    if n <= 0 {
        Seq::empty()
    } else {
        let before = coil_events(utc_ms, prev, new, n - 1);
        if prev[n - 1] != new[n - 1] {
            before.push(event_at(utc_ms, true, n - 1, if new[n - 1] { 1u16 } else { 0u16 }))
        } else {
            before
        }
    }
}

/// The number of cells that both `a` and `b` hold.
pub open spec fn common_len(a: int, b: int) -> int {
    if a <= b {
        a
    } else {
        b
    }
}

/// Appends to `events` one event per coil that differs between `prev_values`
/// and `new_values`, with the coil's new state.
pub fn detect_coil_events(events: &mut Vec<Event>, utc_ms: u64, prev_values: &[bool], new_values: &[bool])
    ensures
        final(events)@ == old(events)@ + coil_events(
            utc_ms,
            prev_values@,
            new_values@,
            common_len(prev_values@.len() as int, new_values@.len() as int),
        ),
{
    let n: usize = if prev_values.len() <= new_values.len() {
        prev_values.len()
    } else {
        new_values.len()
    };
    let mut index: usize = 0;
    while index < n
        invariant
            index <= n,
            n == common_len(prev_values@.len() as int, new_values@.len() as int),
            events@ == old(events)@ + coil_events(utc_ms, prev_values@, new_values@, index as int),
        decreases n - index,
    {
        let prev = prev_values[index];
        let new = new_values[index];
        if prev != new {
            let event = Event {
                utc_ms,
                coil: true,
                address: (index % 65536) as u16,
                state: if new { 1 } else { 0 },
            };
            events.push(event);
        }
        index += 1;
        assert(events@ =~= old(events)@ + coil_events(utc_ms, prev_values@, new_values@, index as int));
    }
}

/// Appends to `events` one event per holding register that differs between
/// `prev_values` and `new_values`, with the register's new value.
pub fn detect_holding_events(events: &mut Vec<Event>, utc_ms: u64, prev_values: &[u16], new_values: &[u16])
    ensures
        final(events)@ == old(events)@ + holding_events(
            utc_ms,
            prev_values@,
            new_values@,
            common_len(prev_values@.len() as int, new_values@.len() as int),
        ),
{
    let n: usize = if prev_values.len() <= new_values.len() {
        prev_values.len()
    } else {
        new_values.len()
    };
    let mut index: usize = 0;
    while index < n
        invariant
            index <= n,
            n == common_len(prev_values@.len() as int, new_values@.len() as int),
            events@ == old(events)@ + holding_events(utc_ms, prev_values@, new_values@, index as int),
        decreases n - index,
    {
        let prev = prev_values[index];
        let new = new_values[index];
        if prev != new {
            let event = Event { utc_ms, coil: false, address: (index % 65536) as u16, state: new };
            events.push(event);
        }
        index += 1;
        assert(events@ =~= old(events)@ + holding_events(utc_ms, prev_values@, new_values@, index as int));
    }
}

} // verus!
