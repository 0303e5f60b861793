//! Fixed-timestep accumulators: each frame's elapsed time is added to an
//! accumulator; when it reaches the fixed interval, the tick fires exactly
//! once and the interval is subtracted, keeping the leftover for the next
//! frame. The movement and spawn cadences each own one such timer.

use vstd::prelude::*;

verus! {

/// Movement cadence, in milliseconds.
pub const MOVEMENT_INTERVAL_MS: u64 = 150;

/// Food spawn cadence, in milliseconds.
pub const SPAWN_INTERVAL_MS: u64 = 1000;

/// A fixed-interval counter: fires once whenever the accumulated elapsed
/// time reaches `interval`, retaining the remainder.
#[derive(Clone, Copy, PartialEq, Eq, Structural, Debug)]
pub struct FixedTimer {
    /// The fixed cadence, in milliseconds; positive.
    pub interval: u64,
    /// Elapsed time not yet consumed by a fire, in milliseconds.
    pub accumulated: u64,
}

impl FixedTimer {
    /// The interval is positive, so the timer cannot fire without elapsed time.
    pub open spec fn well_formed(self) -> bool {
        0 < self.interval
    }

    /// A fresh timer with the given cadence and an empty accumulator.
    pub fn new(interval: u64) -> (t: FixedTimer)
        requires
            0 < interval,
        ensures
            t.interval == interval,
            t.accumulated == 0,
            t.well_formed(),
    {
        FixedTimer { interval, accumulated: 0 }
    }

    /// Advance the timer by one frame's elapsed time. Fires exactly when the
    /// accumulator reaches the interval; on a fire the interval is subtracted
    /// (not reset to zero), so leftover time counts toward the next fire. At
    /// most one fire per frame: ticks are not batched to catch up.
    pub fn tick(&mut self, delta: u64) -> (fired: bool)
        requires
            old(self).well_formed(),
            old(self).accumulated + delta <= u64::MAX,
        ensures
            final(self).interval == old(self).interval,
            final(self).well_formed(),
            fired == (old(self).accumulated + delta >= old(self).interval),
            final(self).accumulated == if fired {
                old(self).accumulated + delta - old(self).interval
            } else {
                old(self).accumulated + delta
            },
    {
        self.accumulated = self.accumulated + delta;
        if self.accumulated >= self.interval {
            self.accumulated = self.accumulated - self.interval;
            true
        } else {
            false
        }
    }
}

/// The accumulator left after a timer with cadence `interval` and leftover
/// `acc` consumes the frame deltas in order, firing as `FixedTimer::tick`
/// does.
pub open spec fn run_acc(acc: int, interval: int, deltas: Seq<int>) -> int
    decreases deltas.len(),
{
    if deltas.len() == 0 {
        acc
    } else {
        let grown = acc + deltas[0];
        let next = if grown >= interval {
            grown - interval
        } else {
            grown
        };
        run_acc(next, interval, deltas.skip(1))
    }
}

/// How many times a timer with cadence `interval` and leftover `acc` fires
/// while consuming the frame deltas in order.
pub open spec fn run_fires(acc: int, interval: int, deltas: Seq<int>) -> int
    decreases deltas.len(),
{
    if deltas.len() == 0 {
        0
    } else {
        let grown = acc + deltas[0];
        let fired: int = if grown >= interval {
            1
        } else {
            0
        };
        let next = if grown >= interval {
            grown - interval
        } else {
            grown
        };
        fired + run_fires(next, interval, deltas.skip(1))
    }
}

/// The total elapsed time of a sequence of frame deltas.
pub open spec fn sum(deltas: Seq<int>) -> int
    decreases deltas.len(),
{
    if deltas.len() == 0 {
        0
    } else {
        deltas[0] + sum(deltas.skip(1))
    }
}

/// While every frame delta stays within one interval, the leftover stays
/// below the interval, and fires times interval plus leftover accounts for
/// all elapsed time.
pub proof fn lemma_run_invariant(acc: int, interval: int, deltas: Seq<int>)
    requires
        0 < interval,
        0 <= acc < interval,
        forall|i: int| 0 <= i < deltas.len() ==> 0 <= #[trigger] deltas[i] <= interval,
    ensures
        0 <= run_acc(acc, interval, deltas) < interval,
        run_fires(acc, interval, deltas) * interval + run_acc(acc, interval, deltas) == acc + sum(
            deltas,
        ),
    decreases deltas.len(),
{
    if deltas.len() > 0 {
        let grown = acc + deltas[0];
        let next = if grown >= interval {
            grown - interval
        } else {
            grown
        };
        let rest = deltas.skip(1);
        assert(forall|i: int| 0 <= i < rest.len() ==> 0 <= #[trigger] rest[i] <= interval) by {
            assert(forall|i: int| 0 <= i < rest.len() ==> rest[i] == deltas[i + 1]);
        }
        lemma_run_invariant(next, interval, rest);
        if grown >= interval {
            assert((1 + run_fires(next, interval, rest)) * interval == interval + run_fires(
                next,
                interval,
                rest,
            ) * interval) by (nonlinear_arith);
        }
    }
}

/// Accumulator law: starting from an empty accumulator, a sequence of frame
/// deltas — each no longer than the interval — makes the timer fire exactly
/// `floor(total elapsed / interval)` times, however the elapsed time is
/// chunked into frames.
pub proof fn lemma_accumulator_fires(interval: int, deltas: Seq<int>)
    requires
        0 < interval,
        forall|i: int| 0 <= i < deltas.len() ==> 0 <= #[trigger] deltas[i] <= interval,
    ensures
        run_fires(0, interval, deltas) == sum(deltas) / interval,
{
    lemma_run_invariant(0, interval, deltas);
    vstd::arithmetic::div_mod::lemma_fundamental_div_mod_converse(
        sum(deltas),
        interval,
        run_fires(0, interval, deltas),
        run_acc(0, interval, deltas),
    );
}

} // verus!
