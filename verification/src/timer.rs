//! A recurring cooldown timer with accumulator semantics: each tick adds the
//! elapsed frame time to an internal clock, and when the clock reaches the
//! period the timer fires exactly once and keeps the remainder. Tick lengths
//! may vary freely; the timer still fires at least once for every full period
//! of accumulated time, and never more than once per tick.

use vstd::prelude::*;

verus! {

/// A repeating countdown with a fixed period, measured in milliseconds.
#[derive(Debug, Clone, Copy, PartialEq, Eq, Structural)]
pub struct Cooldown {
    pub period_ms: u64,
    pub elapsed_ms: u64,
}

/// Addition on the accumulator clock, capped at the top of `u64` so a
/// pathological tick length cannot wrap the clock backwards.
pub open spec fn sat_add(a: u64, b: u64) -> u64 {
    if a + b <= u64::MAX {
        (a + b) as u64
    } else {
        u64::MAX
    }
}

impl Cooldown {
    /// The fixed period between firings.
    pub open spec fn period(self) -> u64 {
        self.period_ms
    }

    /// The time accumulated since the last firing.
    pub open spec fn elapsed(self) -> u64 {
        self.elapsed_ms
    }

    /// The accumulated time never reaches a full period between ticks.
    pub open spec fn wf(self) -> bool {
        &&& self.period() >= 1
        &&& self.elapsed() < self.period()
    }

    /// Whether a tick of `delta_ms` brings the accumulated time up to the
    /// period, making the timer fire.
    pub open spec fn fires(self, delta_ms: u64) -> bool {
        sat_add(self.elapsed(), delta_ms) >= self.period()
    }

    /// The accumulated time after a tick of `delta_ms`: the remainder modulo
    /// the period when the timer fired, the plain sum otherwise.
    pub open spec fn elapsed_after(self, delta_ms: u64) -> u64 {
        if self.fires(delta_ms) {
            (sat_add(self.elapsed(), delta_ms) % self.period()) as u64
        } else {
            sat_add(self.elapsed(), delta_ms)
        }
    }

    /// The whole timer state after a tick of `delta_ms`.
    pub open spec fn after_tick(self, delta_ms: u64) -> Cooldown {
        Cooldown { period_ms: self.period(), elapsed_ms: self.elapsed_after(delta_ms) }
    }

    /// A fresh timer that first fires once `period_ms` of time has passed.
    pub fn new(period_ms: u64) -> (c: Cooldown)
        requires
            period_ms >= 1,
        ensures
            c.wf(),
            c.period() == period_ms,
            c.elapsed() == 0,
    {
        Cooldown { period_ms, elapsed_ms: 0 }
    }

    /// Whether a tick of `delta_ms` would make the timer fire, without
    /// advancing it.
    pub fn would_fire(&self, delta_ms: u64) -> (r: bool)
        ensures
            r == self.fires(delta_ms),
    {
        let sum: u64 = if delta_ms > u64::MAX - self.elapsed_ms {
            u64::MAX
        } else {
            self.elapsed_ms + delta_ms
        };
        sum >= self.period_ms
    }

    /// Advance the clock by one tick of `delta_ms`. Returns whether the
    /// timer fired; it fires at most once however long the tick was.
    pub fn tick(&mut self, delta_ms: u64) -> (fired: bool)
        requires
            old(self).wf(),
        ensures
            final(self).wf(),
            fired == old(self).fires(delta_ms),
            *final(self) == old(self).after_tick(delta_ms),
    {
        let sum: u64 = if delta_ms > u64::MAX - self.elapsed_ms {
            u64::MAX
        } else {
            self.elapsed_ms + delta_ms
        };
        if sum >= self.period_ms {
            self.elapsed_ms = sum % self.period_ms;
            true
        } else {
            self.elapsed_ms = sum;
            false
        }
    }
}

/// The timer state after a whole sequence of ticks.
pub open spec fn run_ticks(c: Cooldown, deltas: Seq<u64>) -> Cooldown
    decreases deltas.len(),
{
    if deltas.len() == 0 {
        c
    } else {
        run_ticks(c, deltas.drop_last()).after_tick(deltas.last())
    }
}

/// How often the timer fires over a whole sequence of ticks.
pub open spec fn fire_count(c: Cooldown, deltas: Seq<u64>) -> nat
    decreases deltas.len(),
{
    if deltas.len() == 0 {
        0
    } else {
        fire_count(c, deltas.drop_last()) + if run_ticks(
            c,
            deltas.drop_last(),
        ).fires(deltas.last()) {
            1nat
        } else {
            0nat
        }
    }
}

/// The accumulated time of all ticks in a sequence.
pub open spec fn total_delta(deltas: Seq<u64>) -> int
    decreases deltas.len(),
{
    if deltas.len() == 0 {
        0
    } else {
        total_delta(deltas.drop_last()) + deltas.last()
    }
}

/// Ticking preserves well-formedness over any sequence of tick lengths.
pub proof fn lemma_run_ticks_wf(c: Cooldown, deltas: Seq<u64>)
    requires
        c.wf(),
    ensures
        run_ticks(c, deltas).wf(),
        run_ticks(c, deltas).period() == c.period(),
    decreases deltas.len(),
{
    if deltas.len() > 0 {
        lemma_run_ticks_wf(c, deltas.drop_last());
    }
}

/// The timer fires at most once per tick: over any sequence of ticks it
/// fires no more often than there are ticks.
pub proof fn lemma_at_most_one_fire_per_tick(c: Cooldown, deltas: Seq<u64>)
    ensures
        fire_count(c, deltas) <= deltas.len(),
    decreases deltas.len(),
{
    if deltas.len() > 0 {
        lemma_at_most_one_fire_per_tick(c, deltas.drop_last());
    }
}

/// While the timer never fires, the clock is the exact running sum of the
/// tick lengths added to the starting clock: no time is lost or capped.
proof fn lemma_no_fire_accumulates(c: Cooldown, deltas: Seq<u64>)
    requires
        c.wf(),
        fire_count(c, deltas) == 0,
    ensures
        run_ticks(c, deltas).elapsed() == c.elapsed() + total_delta(deltas),
        run_ticks(c, deltas).period() == c.period(),
    decreases deltas.len(),
{
    if deltas.len() > 0 {
        lemma_no_fire_accumulates(c, deltas.drop_last());
    }
}

/// The timer fires at least once in any stretch of ticks whose accumulated
/// time reaches a full period beyond the starting clock, however unevenly
/// that time is spread over the ticks.
pub proof fn lemma_fires_within_period(c: Cooldown, deltas: Seq<u64>)
    requires
        c.wf(),
        c.elapsed() + total_delta(deltas) >= c.period(),
    ensures
        fire_count(c, deltas) >= 1,
{
    if fire_count(c, deltas) == 0 {
        lemma_no_fire_accumulates(c, deltas);
        lemma_run_ticks_wf(c, deltas);
        assert(run_ticks(c, deltas).elapsed() < c.period());
        assert(false);
    }
}

} // verus!
