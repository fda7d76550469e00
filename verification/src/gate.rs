//! A reusable periodic gate: an accumulator that converts a variable
//! frame delta into fixed-interval ticks, optionally scaled by a
//! runtime rate factor.
//!
//! Time is measured in milliseconds and rate factors in hundredths,
//! so the accumulator and the interval hold hundredths of a
//! millisecond. Each call accumulates `delta * scale` and fires at
//! most once, subtracting a single interval: the accumulator can fall behind
//! under a large delta, but it never fires twice in one call, which
//! bounds every periodic process to one step per frame.

use vstd::prelude::*;
use vstd::arithmetic::div_mod::{lemma_div_is_ordered, lemma_div_multiples_vanish};

verus! {

/// Whether one accumulation step of `amount` reaches the interval
/// and fires a tick.
pub open spec fn gate_fires(accumulated: int, interval: int, amount: int) -> bool {
    accumulated + amount >= interval
}

/// The accumulator left behind by one accumulation step of `amount`:
/// one interval is subtracted whenever a tick fires.
pub open spec fn gate_after(accumulated: int, interval: int, amount: int) -> int {
    if gate_fires(accumulated, interval, amount) {
        accumulated + amount - interval
    } else {
        accumulated + amount
    }
}

/// The accumulator left behind by feeding `amounts` one call at a time.
pub open spec fn gate_acc_after(accumulated: int, interval: int, amounts: Seq<int>) -> int
    decreases amounts.len(),
{
    if amounts.len() == 0 {
        accumulated
    } else {
        gate_acc_after(gate_after(accumulated, interval, amounts[0]), interval, amounts.drop_first())
    }
}

/// How many of the calls that feed `amounts` one at a time fire.
pub open spec fn gate_tick_count(accumulated: int, interval: int, amounts: Seq<int>) -> int
    decreases amounts.len(),
{
    if amounts.len() == 0 {
        0
    } else {
        (if gate_fires(accumulated, interval, amounts[0]) {
            1int
        } else {
            0int
        }) + gate_tick_count(
            gate_after(accumulated, interval, amounts[0]),
            interval,
            amounts.drop_first(),
        )
    }
}

/// The total of a sequence of accumulation amounts.
pub open spec fn seq_total(amounts: Seq<int>) -> int
    decreases amounts.len(),
{
    if amounts.len() == 0 {
        0
    } else {
        amounts[0] + seq_total(amounts.drop_first())
    }
}

/// A fired tick count is never negative.
pub proof fn lemma_gate_count_nonneg(accumulated: int, interval: int, amounts: Seq<int>)
    ensures
        gate_tick_count(accumulated, interval, amounts) >= 0,
    decreases amounts.len(),
{
    if amounts.len() > 0 {
        lemma_gate_count_nonneg(
            gate_after(accumulated, interval, amounts[0]),
            interval,
            amounts.drop_first(),
        );
    }
}

/// Conservation of accumulated time: every unit fed in is
/// either paid out as a fired interval or still held in the
/// accumulator, which never goes negative.
pub proof fn lemma_gate_conservation(accumulated: int, interval: int, amounts: Seq<int>)
    requires
        interval > 0,
        accumulated >= 0,
        forall|i: int| 0 <= i < amounts.len() ==> amounts[i] >= 0,
    ensures
        gate_acc_after(accumulated, interval, amounts) >= 0,
        interval * gate_tick_count(accumulated, interval, amounts) + gate_acc_after(
            accumulated,
            interval,
            amounts,
        ) == accumulated + seq_total(amounts),
    decreases amounts.len(),
{
    if amounts.len() > 0 {
        let next = gate_after(accumulated, interval, amounts[0]);
        assert(forall|i: int|
            0 <= i < amounts.drop_first().len() ==> amounts.drop_first()[i] >= 0);
        lemma_gate_conservation(next, interval, amounts.drop_first());
        let fired: int = if gate_fires(accumulated, interval, amounts[0]) {
            1int
        } else {
            0int
        };
        let rest = gate_tick_count(next, interval, amounts.drop_first());
        assert(interval * (fired + rest) == interval * fired + interval * rest) by (nonlinear_arith);
    }
}

/// Gate soundness: over any series of calls, the number of fired
/// ticks never exceeds the accumulated time divided by the interval.
pub proof fn lemma_gate_count_bound(accumulated: int, interval: int, amounts: Seq<int>)
    requires
        interval > 0,
        accumulated >= 0,
        forall|i: int| 0 <= i < amounts.len() ==> amounts[i] >= 0,
    ensures
        gate_tick_count(accumulated, interval, amounts) <= (accumulated + seq_total(amounts))
            / interval,
{
    let count = gate_tick_count(accumulated, interval, amounts);
    let total = accumulated + seq_total(amounts);
    lemma_gate_conservation(accumulated, interval, amounts);
    assert(interval * count <= total);
    lemma_div_is_ordered(interval * count, total, interval);
    lemma_div_multiples_vanish(count, interval);
}

/// Splitting a series of calls: the ticks fired over a concatenation
/// are the ticks of the first part plus the ticks of the second part
/// started from the accumulator the first part leaves behind.
pub proof fn lemma_gate_count_split(
    accumulated: int,
    interval: int,
    first: Seq<int>,
    second: Seq<int>,
)
    ensures
        gate_tick_count(accumulated, interval, first + second) == gate_tick_count(
            accumulated,
            interval,
            first,
        ) + gate_tick_count(gate_acc_after(accumulated, interval, first), interval, second),
    decreases first.len(),
{
    if first.len() == 0 {
        assert(first + second =~= second);
    } else {
        let next = gate_after(accumulated, interval, first[0]);
        assert((first + second).drop_first() =~= first.drop_first() + second);
        lemma_gate_count_split(next, interval, first.drop_first(), second);
    }
}

/// Gate monotonicity: feeding further time never loses a tick that
/// was already fired, so the tick count is non-decreasing in the
/// series of calls made.
pub proof fn lemma_gate_count_monotonic(
    accumulated: int,
    interval: int,
    first: Seq<int>,
    second: Seq<int>,
)
    ensures
        gate_tick_count(accumulated, interval, first + second) >= gate_tick_count(
            accumulated,
            interval,
            first,
        ),
{
    lemma_gate_count_split(accumulated, interval, first, second);
    lemma_gate_count_nonneg(gate_acc_after(accumulated, interval, first), interval, second);
}

/// A periodic gate, owning its fixed interval and the time
/// accumulated toward the next tick, both in hundredths of a
/// millisecond.
#[derive(Clone, Copy, PartialEq, Eq, Structural, Debug)]
pub struct PeriodicGate {
    /// The fixed firing interval, in hundredths of a millisecond.
    pub interval: u64,
    /// Time accumulated toward the next tick, in hundredths of a
    /// millisecond.
    pub accumulated: u64,
}

impl PeriodicGate {
    /// Well formed when the interval is positive.
    pub open spec fn wf(self) -> bool {
        self.interval > 0
    }

    /// A fresh gate with nothing accumulated.
    pub fn new(interval: u64) -> (gate: Self)
        requires
            interval > 0,
        ensures
            gate.wf(),
            gate.interval == interval,
            gate.accumulated == 0,
    {
        PeriodicGate { interval, accumulated: 0 }
    }

    /// Accumulates `delta` milliseconds scaled by `scale` hundredths
    /// and reports whether a tick fired. At most one interval is
    /// subtracted per call.
    pub fn tick(&mut self, delta: u64, scale: u64) -> (fired: bool)
        requires
            old(self).wf(),
            old(self).accumulated + delta * scale <= u64::MAX,
        ensures
            final(self).wf(),
            final(self).interval == old(self).interval,
            fired == gate_fires(
                old(self).accumulated as int,
                old(self).interval as int,
                delta as int * scale as int,
            ),
            final(self).accumulated == gate_after(
                old(self).accumulated as int,
                old(self).interval as int,
                delta as int * scale as int,
            ),
    {
        let amount = delta * scale;
        self.accumulated = self.accumulated + amount;
        if self.accumulated >= self.interval {
            self.accumulated = self.accumulated - self.interval;
            true
        } else {
            false
        }
    }
}

} // verus!
