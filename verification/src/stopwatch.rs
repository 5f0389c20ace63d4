//! A reusable elapsed-time accumulator with a threshold, for states that need
//! simple timed transitions.

use vstd::prelude::*;
use crate::DeltaTime;
use crate::sat_add_millis;

verus! {

/// Accumulates time deltas until a fixed threshold is reached; once over the
/// threshold, further ticks are ignored until `reset`.
#[derive(Clone, Copy, Debug)]
pub struct Stopwatch {
    current: DeltaTime,
    threshold: DeltaTime,
}

impl Stopwatch {
    /// The milliseconds accumulated since construction or the last reset.
    pub closed spec fn accumulated(&self) -> u64 {
        self.current.millis()
    }

    /// The threshold this stopwatch was created with, in milliseconds.
    pub closed spec fn threshold(&self) -> u64 {
        self.threshold.millis()
    }

    /// Whether the accumulated time has reached the threshold.
    pub open spec fn spec_is_over(&self) -> bool {
        self.accumulated() >= self.threshold()
    }

    /// A stopwatch with the given threshold and zero accumulated time.
    pub fn new(threshold: DeltaTime) -> (r: Self)
        ensures
            r.accumulated() == 0,
            r.threshold() == threshold.millis(),
    {
        Stopwatch { current: DeltaTime::zero(), threshold }
    }

    /// Sets the accumulated time back to zero; the threshold is unchanged.
    pub fn reset(&mut self)
        ensures
            final(self).accumulated() == 0,
            final(self).threshold() == old(self).threshold(),
    {
        self.current = DeltaTime::zero();
    }

    /// Adds `dt` to the accumulated time, saturating rather than wrapping.
    /// Once the accumulated time is over the threshold, ticking is a no-op
    /// until `reset`, so the accumulator never advances past being over.
    pub fn tick(&mut self, dt: DeltaTime)
        ensures
            final(self).threshold() == old(self).threshold(),
            final(self).accumulated() == spec_tick(
                old(self).accumulated(),
                old(self).threshold(),
                dt.millis(),
            ),
    {
        if self.is_over() {
            return ;
        }
        self.current = self.current.saturating_add(dt);
    }

    /// True iff the accumulated time has reached the threshold.
    pub fn is_over(&mut self) -> (r: bool)
        ensures
            *final(self) == *old(self),
            r == old(self).spec_is_over(),
    {
        self.current.is_at_least(&self.threshold)
    }
}

/// What one tick does to the accumulated time: a no-op once the accumulator
/// is over the threshold, a saturating addition otherwise.
pub open spec fn spec_tick(acc: u64, threshold: u64, d: u64) -> u64 {
    if acc >= threshold {
        acc
    } else {
        sat_add_millis(acc, d)
    }
}

/// The accumulated time after ticking a fresh accumulator (zero accumulated
/// time) with each delta of `ds` in order, against `threshold`.
pub open spec fn spec_run_ticks(threshold: u64, ds: Seq<u64>) -> u64
    decreases ds.len(),
{
    if ds.len() == 0 {
        0
    } else {
        spec_tick(spec_run_ticks(threshold, ds.drop_last()), threshold, ds.last())
    }
}

/// The saturating sum of a sequence of millisecond deltas.
pub open spec fn sat_sum(ds: Seq<u64>) -> u64
    decreases ds.len(),
{
    if ds.len() == 0 {
        0
    } else {
        sat_add_millis(sat_sum(ds.drop_last()), ds.last())
    }
}

/// Law: for every sequence of ticks on a fresh stopwatch with threshold `t`,
/// the stopwatch is over exactly when the (saturating) sum of the deltas
/// ticked so far has reached `t` — and, since the sum only grows, it then
/// stays over under further ticks until a reset.
pub proof fn lemma_over_iff_sum_reaches_threshold(threshold: u64, ds: Seq<u64>)
    ensures
        (spec_run_ticks(threshold, ds) >= threshold) <==> (sat_sum(ds) >= threshold),
    decreases ds.len(),
{
    lemma_run_ticks_tracks_sum(threshold, ds);
}

/// Law: once over, any further tick is a no-op — the stopwatch stays over,
/// and its accumulated time does not advance, until a reset.
pub proof fn lemma_once_over_stays_over(threshold: u64, ds: Seq<u64>, d: u64)
    ensures
        spec_run_ticks(threshold, ds) >= threshold ==> spec_run_ticks(threshold, ds.push(d))
            == spec_run_ticks(threshold, ds),
{
    assert(ds.push(d).drop_last() =~= ds);
    assert(ds.push(d).last() == d);
}

/// While still under the threshold, the accumulator equals the saturating sum
/// of all deltas ticked so far; and it is over exactly when that sum has
/// reached the threshold.
proof fn lemma_run_ticks_tracks_sum(threshold: u64, ds: Seq<u64>)
    ensures
        (spec_run_ticks(threshold, ds) >= threshold) <==> (sat_sum(ds) >= threshold),
        spec_run_ticks(threshold, ds) < threshold ==> spec_run_ticks(threshold, ds) == sat_sum(
            ds,
        ),
    decreases ds.len(),
{
    if ds.len() > 0 {
        lemma_run_ticks_tracks_sum(threshold, ds.drop_last());
    }
}

} // verus!
