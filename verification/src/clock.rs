//! Mapping from elapsed wall-clock time to simulation tick indices.
//!
//! A turn replays exactly `TURN_TICKS` fixed-rate simulation ticks. The clock
//! yields, on each poll, the tick indices that have become due since the last
//! poll, and at turn end flushes whatever is left, so every tick of the turn is
//! yielded exactly once, in ascending order, with no gaps and no duplicates.

use vstd::prelude::*;

verus! {

/// Fixed simulation rate, in ticks per second of wall-clock replay time.
pub const TICKS_PER_SECOND: u64 = 20;

/// Milliseconds of wall-clock time spanned by one simulation tick.
pub const MS_PER_TICK: u64 = 1000 / TICKS_PER_SECOND;

/// Number of simulation ticks in one turn.
pub const TURN_TICKS: u32 = 100;

/// The tick index that a given elapsed time maps to, clamped to the turn's
/// last tick index.
pub open spec fn current_tick(elapsed_ms: u64) -> u32 {
    if elapsed_ms / MS_PER_TICK >= (TURN_TICKS - 1) as u64 {
        (TURN_TICKS - 1) as u32
    } else {
        (elapsed_ms / MS_PER_TICK) as u32
    }
}

/// Converts elapsed wall-clock time into the monotonic range of simulation
/// ticks that are due but not yet applied.
pub struct TickClock {
    /// The first tick index of the turn not yet yielded; `TURN_TICKS` once the
    /// whole turn has been yielded.
    pub next_tick: u32,
    /// Every tick index yielded so far this turn, in the order yielded.
    pub history: Ghost<Seq<u32>>,
}

impl TickClock {
    /// The clock has yielded exactly the tick indices below `next_tick`, each
    /// once, in ascending order.
    pub open spec fn wf(self) -> bool {
        &&& self.next_tick <= TURN_TICKS
        &&& self.history@.len() == self.next_tick
        &&& forall|i: int| 0 <= i < self.history@.len() ==> self.history@[i] as int == i
    }

    /// A fresh clock for a new turn: nothing yielded yet.
    pub fn new() -> (c: Self)
        ensures
            c.wf(),
            c.next_tick == 0,
            c.history@ === Seq::empty(),
    {
        TickClock { next_tick: 0, history: Ghost(Seq::empty()) }
    }

    /// Yields the tick indices that became due since the last poll: the range
    /// from the first unyielded tick up to the tick that `elapsed_ms` maps to.
    /// Yields nothing when no new tick is due; cannot fail.
    pub fn ticks_due(&mut self, elapsed_ms: u64) -> (r: Vec<u32>)
        requires
            old(self).wf(),
        ensures
            final(self).wf(),
            final(self).next_tick as int == if current_tick(elapsed_ms) + 1 > old(self).next_tick {
                current_tick(elapsed_ms) + 1
            } else {
                old(self).next_tick as int
            },
            r@.len() == final(self).next_tick - old(self).next_tick,
            forall|i: int| 0 <= i < r@.len() ==> r@[i] as int == old(self).next_tick + i,
            final(self).history@ == old(self).history@ + r@,
    {
        let due64: u64 = elapsed_ms / MS_PER_TICK;
        let due: u32 = if due64 >= (TURN_TICKS - 1) as u64 { TURN_TICKS - 1 } else { due64 as u32 };
        assert(due == current_tick(elapsed_ms));
        self.yield_up_to(due)
    }

    /// Yields every tick of the turn not yet yielded, regardless of elapsed
    /// time. Called exactly once at turn end so that all `TURN_TICKS` ticks are
    /// applied even if real time ran out or packets arrived late.
    pub fn flush(&mut self) -> (r: Vec<u32>)
        requires
            old(self).wf(),
        ensures
            final(self).wf(),
            final(self).next_tick == TURN_TICKS,
            r@.len() == TURN_TICKS - old(self).next_tick,
            forall|i: int| 0 <= i < r@.len() ==> r@[i] as int == old(self).next_tick + i,
            final(self).history@ == old(self).history@ + r@,
    {
        self.yield_up_to(TURN_TICKS - 1)
    }

    /// Yields the range from the first unyielded tick through `up_to`
    /// inclusive; nothing if that range is empty.
    fn yield_up_to(&mut self, up_to: u32) -> (r: Vec<u32>)
        requires
            old(self).wf(),
            up_to < TURN_TICKS,
        ensures
            final(self).wf(),
            final(self).next_tick as int == if up_to + 1 > old(self).next_tick {
                up_to + 1
            } else {
                old(self).next_tick as int
            },
            r@.len() == final(self).next_tick - old(self).next_tick,
            forall|i: int| 0 <= i < r@.len() ==> r@[i] as int == old(self).next_tick + i,
            final(self).history@ == old(self).history@ + r@,
    {
        let mut r: Vec<u32> = Vec::new();
        if self.next_tick > up_to {
            assert(final(self).history@ =~= old(self).history@ + r@);
            return r;
        }
        while self.next_tick <= up_to
            invariant
                up_to < TURN_TICKS,
                old(self).next_tick <= self.next_tick,
                self.next_tick <= up_to + 1,
                self.history@.len() == self.next_tick,
                forall|i: int| 0 <= i < self.history@.len() ==> self.history@[i] as int == i,
                r@.len() == self.next_tick - old(self).next_tick,
                forall|i: int| 0 <= i < r@.len() ==> r@[i] as int == old(self).next_tick + i,
                self.history@ == old(self).history@ + r@,
            decreases up_to + 1 - self.next_tick,
        {
            r.push(self.next_tick);
            self.history = Ghost(self.history@.push(self.next_tick));
            self.next_tick = self.next_tick + 1;
        }
        r
    }
}

/// Law: across a whole turn — any number of `ticks_due` polls (including none)
/// followed by the mandatory end-of-turn `flush` — the clock yields every tick
/// index of the turn exactly once, in ascending order, with no gaps and no
/// duplicates.
pub proof fn lemma_turn_tick_coverage(c: TickClock)
    requires
        c.wf(),
        c.next_tick == TURN_TICKS,
    ensures
        c.history@.len() == TURN_TICKS,
        forall|i: int| 0 <= i < TURN_TICKS ==> c.history@[i] as int == i,
        forall|i: int, j: int|
            0 <= i < TURN_TICKS && 0 <= j < TURN_TICKS && i != j ==> c.history@[i] != c.history@[j],
{
}

} // verus!
