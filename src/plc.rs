//! The simulation that makes the controller look alive: on every tick the
//! coils run two triangle waves and the holding registers count at harmonic
//! rates of the tick counter.

use crate::storage::{
    write_coils, write_holdings, Registers, COIL_COUNT, HOLDING_COUNT,
};
use vstd::arithmetic::div_mod::lemma_mod_add_multiples_vanish;
use vstd::prelude::*;

verus! {

/// Length of the low coil segment: the first third of the bank.
pub open spec fn low_len(coil_count: int) -> int {
    coil_count / 3
}

/// Length of the high coil segment: the rest of the bank.
pub open spec fn high_len(coil_count: int) -> int {
    coil_count - coil_count / 3
}

/// The single active coil of a low segment of `low` coils at tick `counter`:
/// it climbs from 0 to `low - 1` and comes back, one coil per tick.
pub open spec fn low_active(low: int, counter: int) -> int
    recommends
        low >= 2,
{
    let period = 2 * (low - 1);
    let c = counter % period;
    if c >= low {
        period - c
    } else {
        c
    }
}

/// How many coils of a high segment of `high` coils are on at tick
/// `counter`: the level climbs from 0 to `high` and comes back.
pub open spec fn high_level(high: int, counter: int) -> int
    recommends
        high >= 1,
{
    let period = 2 * high;
    let c = counter % period;
    if c > high {
        period - c
    } else {
        c
    }
}

/// A low segment is long enough for its triangle wave.
pub open spec fn coil_count_ok(coil_count: int) -> bool {
    low_len(coil_count) >= 2 && 2 * coil_count <= usize::MAX
}

/// The coil bank at tick `counter`: one active coil in the low segment and an
/// "on" prefix in the high segment.
pub open spec fn coil_pattern(coil_count: int, counter: int) -> Seq<bool> {
    let low = low_len(coil_count);
    let high = high_len(coil_count);
    Seq::new(
        coil_count as nat,
        |i: int|
            if i < low {
                i == low_active(low, counter)
            } else {
                i - low < high_level(high, counter)
            },
    )
}

/// The holding registers at tick `counter`: register `i` holds
/// `counter / (i + 1)`, kept to 16 bits.
pub open spec fn holding_pattern(holding_count: int, counter: int) -> Seq<u16> {
    Seq::new(holding_count as nat, |i: int| ((counter / (i + 1)) % 65536) as u16)
}

/// The coil values of a bank of `coil_count` coils at tick `counter`.
pub fn coil_values(coil_count: usize, counter: usize) -> (r: Vec<bool>)
    requires
        coil_count_ok(coil_count as int),
    ensures
        r@ == coil_pattern(coil_count as int, counter as int),
{
    let low: usize = coil_count / 3;
    let high: usize = coil_count - low;
    let low_period: usize = 2 * (low - 1);
    let mut active: usize = counter % low_period;
    if active >= low {
        active = low_period - active;
    }
    let high_period: usize = 2 * high;
    let mut level: usize = counter % high_period;
    if level > high {
        level = high_period - level;
    }
    assert(active == low_active(low as int, counter as int));
    assert(level == high_level(high as int, counter as int));
    let mut coils: Vec<bool> = Vec::new();
    let mut i: usize = 0;
    while i < coil_count
        invariant
            i <= coil_count,
            low == low_len(coil_count as int),
            high == high_len(coil_count as int),
            active == low_active(low as int, counter as int),
            level == high_level(high as int, counter as int),
            coils@ == coil_pattern(coil_count as int, counter as int).subrange(0, i as int),
        decreases coil_count - i,
    {
        let on = if i < low {
            i == active
        } else {
            i - low < level
        };
        coils.push(on);
        i += 1;
        assert(coils@ =~= coil_pattern(coil_count as int, counter as int).subrange(0, i as int));
    }
    assert(coils@ =~= coil_pattern(coil_count as int, counter as int));
    coils
}

/// The holding register values of a bank of `holding_count` registers at
/// tick `counter`.
pub fn holding_values(holding_count: usize, counter: usize) -> (r: Vec<u16>)
    ensures
        r@ == holding_pattern(holding_count as int, counter as int),
{
    let mut holdings: Vec<u16> = Vec::new();
    let mut i: usize = 0;
    while i < holding_count
        invariant
            i <= holding_count,
            holdings@ == holding_pattern(holding_count as int, counter as int).subrange(0, i as int),
        decreases holding_count - i,
    {
        let v: u16 = ((counter / (i + 1)) % 65536) as u16;
        holdings.push(v);
        i += 1;
        assert(holdings@ =~= holding_pattern(holding_count as int, counter as int).subrange(0, i as int));
    }
    assert(holdings@ =~= holding_pattern(holding_count as int, counter as int));
    holdings
}

/// Applies tick `counter` to the banks: both bulk writes cover a whole bank.
pub fn apply_tick(regs: &mut Registers, counter: usize)
    ensures
        final(regs).coils@ == coil_pattern(COIL_COUNT as int, counter as int),
        final(regs).holdings@ == holding_pattern(HOLDING_COUNT as int, counter as int),
        final(regs).discretes@ == old(regs).discretes@,
        final(regs).inputs@ == old(regs).inputs@,
{
    let coils = coil_values(COIL_COUNT, counter);
    let holdings = holding_values(HOLDING_COUNT, counter);
    let coils_written = write_coils(regs, 0, coils.as_slice());
    let holdings_written = write_holdings(regs, 0, holdings.as_slice());
    assert(coils_written is Ok && holdings_written is Ok);
    assert(regs.coils@ =~= coil_pattern(COIL_COUNT as int, counter as int));
    assert(regs.holdings@ =~= holding_pattern(HOLDING_COUNT as int, counter as int));
}

/// The low segment's active coil repeats every `2 * (low - 1)` ticks, and the
/// high segment's "on" prefix repeats every `2 * high` ticks; the active coil
/// always lies inside the low segment and the prefix never passes the high
/// segment.
pub proof fn lemma_coil_waves_periodic(low: int, high: int, counter: int)
    requires
        low >= 2,
        high >= 1,
        counter >= 0,
    ensures
        low_active(low, counter + 2 * (low - 1)) == low_active(low, counter),
        high_level(high, counter + 2 * high) == high_level(high, counter),
        0 <= low_active(low, counter) < low,
        0 <= high_level(high, counter) <= high,
{
    let lp: int = 2 * (low - 1);
    let hp: int = 2 * high;
    lemma_mod_add_multiples_vanish(counter, lp);
    lemma_mod_add_multiples_vanish(counter, hp);
    assert((counter + lp) % lp == (lp + counter) % lp);
    assert((counter + hp) % hp == (hp + counter) % hp);
}

/// On a whole coil bank: the low segment repeats every `2 * (low - 1)` ticks
/// and the high segment every `2 * high` ticks, with exactly one coil of the
/// low segment on at every tick.
pub proof fn lemma_coil_pattern_periodic(coil_count: int, counter: int)
    requires
        coil_count_ok(coil_count),
        counter >= 0,
    ensures
        ({
            let low = low_len(coil_count);
            let high = high_len(coil_count);
            let now = coil_pattern(coil_count, counter);
            &&& coil_pattern(coil_count, counter + 2 * (low - 1)).subrange(0, low) == now.subrange(0, low)
            &&& coil_pattern(coil_count, counter + 2 * high).subrange(low, coil_count)
                == now.subrange(low, coil_count)
            &&& 0 <= low_active(low, counter) < low
            &&& now[low_active(low, counter)]
            &&& forall|i: int| 0 <= i < low && i != low_active(low, counter) ==> !#[trigger] now[i]
        }),
{
    let low = low_len(coil_count);
    let high = high_len(coil_count);
    lemma_coil_waves_periodic(low, high, counter);
    assert(coil_pattern(coil_count, counter + 2 * (low - 1)).subrange(0, low)
        =~= coil_pattern(coil_count, counter).subrange(0, low));
    assert(coil_pattern(coil_count, counter + 2 * high).subrange(low, coil_count)
        =~= coil_pattern(coil_count, counter).subrange(low, coil_count));
}

/// Tick width of the fast mode, in milliseconds.
pub const FAST_TICK_MS: u64 = 1;

/// Tick width of the normal mode, in milliseconds.
pub const NORMAL_TICK_MS: u64 = 100;

/// The tick width selected by the startup switch.
pub fn tick_width_ms(fast: bool) -> (r: u64)
    ensures
        r == if fast { FAST_TICK_MS } else { NORMAL_TICK_MS },
{
    if fast {
        FAST_TICK_MS
    } else {
        NORMAL_TICK_MS
    }
}

/// What the simulation loop is to do after reading the shutdown flag and the
/// clock.
#[derive(Debug, Clone, Copy, PartialEq, Eq, Structural)]
pub enum PlcAction {
    /// Stop: the shutdown flag is raised.
    Stop,
    /// Sleep briefly: the clock is still in the bucket of the last tick.
    Wait,
    /// Try to take the exclusive lock without blocking and tick; if the lock
    /// is held, skip the tick with [`Simulation::skip`].
    Tick,
}

/// How long the simulation loop sleeps between two looks at the clock, in
/// microseconds: well under the narrowest tick.
pub const WAIT_US: u64 = 250;

/// The simulation loop's move: stop on a raised shutdown flag, else tick
/// when a tick is due, else wait.
pub open spec fn plc_action(must_quit: bool, due: bool) -> PlcAction {
    if must_quit {
        PlcAction::Stop
    } else if due {
        PlcAction::Tick
    } else {
        PlcAction::Wait
    }
}

/// A simulation loop that sees the shutdown flag raised stops, whatever the
/// clock says, and otherwise waits at most [`WAIT_US`] before it looks at the
/// flag again: it stops within one tick period of the flag being raised.
pub proof fn lemma_simulation_stops_on_shutdown(due: bool)
    ensures
        plc_action(true, due) == PlcAction::Stop,
        plc_action(false, due) != PlcAction::Stop,
        WAIT_US < FAST_TICK_MS * 1000,
{
}

/// The state of the simulation loop between two observations of the clock.
pub struct Simulation {
    counter: usize,
    last_ms: u64,
    tick_ms: u64,
}

impl Simulation {
    /// Ticks applied so far.
    pub closed spec fn spec_counter(&self) -> nat {
        self.counter as nat
    }

    /// The time of the last tick, or of the start.
    pub closed spec fn spec_last_ms(&self) -> u64 {
        self.last_ms
    }

    /// The width of a tick bucket, in milliseconds.
    pub closed spec fn spec_tick_ms(&self) -> u64 {
        self.tick_ms
    }

    /// Every tick bucket has a width.
    pub closed spec fn wf(&self) -> bool {
        self.tick_ms > 0
    }

    /// A simulation started at `now_ms`, ticking in buckets of `tick_ms`.
    pub fn new(tick_ms: u64, now_ms: u64) -> (r: Simulation)
        requires
            tick_ms > 0,
        ensures
            r.wf(),
            r.spec_counter() == 0,
            r.spec_last_ms() == now_ms,
            r.spec_tick_ms() == tick_ms,
    {
        Simulation { counter: 0, last_ms: now_ms, tick_ms }
    }

    /// Ticks applied so far.
    pub fn counter(&self) -> (r: usize)
        ensures
            r == self.spec_counter(),
    {
        self.counter
    }

    /// A tick is due at `now_ms` when it falls in another bucket than the
    /// last tick.
    pub open spec fn is_due_at(&self, now_ms: u64) -> bool {
        now_ms / self.spec_tick_ms() != self.spec_last_ms() / self.spec_tick_ms()
    }

    /// See [`Simulation::is_due_at`].
    pub fn is_due(&self, now_ms: u64) -> (r: bool)
        requires
            self.wf(),
        ensures
            r == self.is_due_at(now_ms),
    {
        now_ms / self.tick_ms != self.last_ms / self.tick_ms
    }

    /// The loop's move at `now_ms`, with the shutdown flag as it was read:
    /// a raised flag stops it before anything else.
    pub fn poll(&self, must_quit: bool, now_ms: u64) -> (r: PlcAction)
        requires
            self.wf(),
        ensures
            r == plc_action(must_quit, self.is_due_at(now_ms)),
    {
        if must_quit {
            PlcAction::Stop
        } else if self.is_due(now_ms) {
            PlcAction::Tick
        } else {
            PlcAction::Wait
        }
    }

    /// Skips the tick due at `now_ms`, whose registers were busy: no tick is
    /// tried again before the next bucket.
    pub fn skip(&mut self, now_ms: u64)
        requires
            old(self).wf(),
        ensures
            final(self).wf(),
            final(self).spec_counter() == old(self).spec_counter(),
            final(self).spec_last_ms() == now_ms,
            final(self).spec_tick_ms() == old(self).spec_tick_ms(),
            !final(self).is_due_at(now_ms),
    {
        self.last_ms = now_ms;
    }

    /// Applies the next tick to `regs`, observed at `now_ms`.
    pub fn tick(&mut self, regs: &mut Registers, now_ms: u64)
        requires
            old(self).wf(),
            old(self).spec_counter() < usize::MAX,
        ensures
            final(self).wf(),
            final(regs).coils@ == coil_pattern(COIL_COUNT as int, old(self).spec_counter() as int),
            final(regs).holdings@ == holding_pattern(HOLDING_COUNT as int, old(self).spec_counter() as int),
            final(regs).discretes@ == old(regs).discretes@,
            final(regs).inputs@ == old(regs).inputs@,
            final(self).spec_counter() == old(self).spec_counter() + 1,
            final(self).spec_last_ms() == now_ms,
            final(self).spec_tick_ms() == old(self).spec_tick_ms(),
    {
        apply_tick(regs, self.counter);
        self.counter = self.counter + 1;
        self.last_ms = now_ms;
    }
}

} // verus!
