//! Decision logic for a mainloop that must wait without an OS-level sleep.
//!
//! A caller that owns one or more [`LoopTimer`] records samples its clock in
//! a loop and asks [`decide`] what to do with the current reading: stop
//! waiting ([`Decider::Break`]), re-check immediately in a busy loop
//! ([`Decider::BusyLoop`]), or give up the rest of the time slice
//! ([`Decider::YieldNow`]). The decision for a sample is the most urgent
//! signal any single timer raises, under the total order
//! `Break > BusyLoop > YieldNow`: one timer at its deadline ends the wait no
//! matter what the others say. The waiting loop itself — yielding the thread
//! and re-sampling the clock — belongs to the surrounding application.

use vstd::prelude::*;

use crate::looptimer::LoopTimer;
use crate::time::{sat_sub, Duration, Instant, NANOS_PER_MILLI};

verus! {

/// The default minimum elapsed time before a waiting thread switches from
/// yielding to busy-spinning, in nanoseconds: a few hundred microseconds.
pub const DEFAULT_MIN_SPIN_NANOS: u64 = 500_000;

/// What a waiting thread should do with the current clock sample.
#[derive(Debug, Copy, Clone, Eq, PartialEq, Structural)]
pub enum Decider {
    /// Stop waiting and return to the caller.
    Break,
    /// Re-check the clock at once, without yielding.
    BusyLoop,
    /// Yield the rest of the thread's time slice, then re-check.
    YieldNow,
}

/// How urgent a decision is: `Break` outranks `BusyLoop`, which outranks
/// `YieldNow`.
pub open spec fn urgency(d: Decider) -> int {
    match d {
        Decider::Break => 2,
        Decider::BusyLoop => 1,
        Decider::YieldNow => 0,
    }
}

/// The more urgent of two decisions.
pub open spec fn join(a: Decider, b: Decider) -> Decider {
    if urgency(a) >= urgency(b) {
        a
    } else {
        b
    }
}

impl Decider {
    /// Combines this decision with `other`, keeping the more urgent of the
    /// two.
    pub fn fold(&self, other: Decider) -> (r: Decider)
        ensures
            r == join(*self, other),
    {
        match self {
            Decider::Break => Decider::Break,
            Decider::BusyLoop => {
                if other == Decider::Break {
                    other
                } else {
                    *self
                }
            },
            Decider::YieldNow => {
                if other != Decider::YieldNow {
                    other
                } else {
                    *self
                }
            },
        }
    }
}

/// The signal a single timer raises at clock reading `now`, given the
/// minimum busy-spin threshold `min`: `Break` once the time since the
/// timer's last end reaches its target less a one-millisecond safety margin,
/// `BusyLoop` once it exceeds `min`, and `YieldNow` before that.
pub open spec fn spec_signal(t: LoopTimer, now: Instant, min: Duration) -> Decider {
    let elapsed = sat_sub(now.nanos, t.end.nanos);
    let margin = sat_sub(t.target.nanos, NANOS_PER_MILLI);
    if elapsed >= margin {
        Decider::Break
    } else if elapsed > min.nanos {
        Decider::BusyLoop
    } else {
        Decider::YieldNow
    }
}

/// The combined decision over a set of timers: the most urgent of their
/// signals, or `YieldNow` when there are none.
pub open spec fn spec_decide(timers: Seq<LoopTimer>, now: Instant, min: Duration) -> Decider
    decreases timers.len(),
{
    if timers.len() == 0 {
        Decider::YieldNow
    } else {
        join(
            spec_decide(timers.drop_last(), now, min),
            spec_signal(timers.last(), now, min),
        )
    }
}

/// The busy-spin threshold a wait actually uses: the caller's choice, or
/// [`DEFAULT_MIN_SPIN_NANOS`] when the caller gave none.
pub open spec fn spec_min_threshold(min: Option<Duration>) -> Duration {
    match min {
        Some(d) => d,
        None => Duration { nanos: DEFAULT_MIN_SPIN_NANOS },
    }
}

/// The signal a single timer raises at clock reading `now`.
pub fn signal(t: &LoopTimer, now: Instant, min: Duration) -> (r: Decider)
    ensures
        r == spec_signal(*t, now, min),
{
    let elapsed = now.saturating_duration_since(t.end);
    let margin = t.target.saturating_sub(Duration::from_millis(1));
    if elapsed.nanos >= margin.nanos {
        Decider::Break
    } else if elapsed.nanos > min.nanos {
        Decider::BusyLoop
    } else {
        Decider::YieldNow
    }
}

/// Decides, for one clock sample, whether a thread waiting on `timers`
/// should stop waiting, busy-spin, or yield: the most urgent signal any
/// timer raises, with `YieldNow` for an empty set.
pub fn decide(timers: &[LoopTimer], now: Instant, min: Option<Duration>) -> (d: Decider)
    ensures
        d == spec_decide(timers@, now, spec_min_threshold(min)),
{
    let min = match min {
        Some(d) => d,
        None => Duration::from_nanos(DEFAULT_MIN_SPIN_NANOS),
    };
    let mut d = Decider::YieldNow;
    let mut i: usize = 0;
    while i < timers.len()
        invariant
            0 <= i <= timers@.len(),
            d == spec_decide(timers@.take(i as int), now, min),
        decreases timers@.len() - i,
    {
        let s = signal(&timers[i], now, min);
        d = d.fold(s);
        proof {
            assert(timers@.take(i + 1).drop_last() =~= timers@.take(i as int));
            assert(timers@.take(i + 1).last() == timers@[i as int]);
        }
        i = i + 1;
    }
    proof {
        assert(timers@.take(timers@.len() as int) =~= timers@);
    }
    d
}

/// The combined decision is the most urgent signal raised: no timer's signal
/// outranks it, and unless it is the `YieldNow` floor, some timer raises
/// exactly it.
pub proof fn lemma_decide_is_most_urgent(timers: Seq<LoopTimer>, now: Instant, min: Duration)
    ensures
        forall|i: int|
            0 <= i < timers.len() ==> urgency(#[trigger] spec_signal(timers[i], now, min))
                <= urgency(spec_decide(timers, now, min)),
        spec_decide(timers, now, min) == Decider::YieldNow || exists|i: int|
            0 <= i < timers.len() && spec_signal(timers[i], now, min) == spec_decide(
                timers,
                now,
                min,
            ),
    decreases timers.len(),
{
    if timers.len() > 0 {
        lemma_decide_is_most_urgent(timers.drop_last(), now, min);
        let rest = spec_decide(timers.drop_last(), now, min);
        let last = spec_signal(timers.last(), now, min);
        let whole = spec_decide(timers, now, min);
        assert(forall|i: int|
            0 <= i < timers.len() - 1 ==> timers.drop_last()[i] == timers[i]);
        if whole != Decider::YieldNow {
            if urgency(rest) >= urgency(last) {
                assert(whole == rest);
                let j = choose|j: int|
                    0 <= j < timers.drop_last().len() && spec_signal(
                        timers.drop_last()[j],
                        now,
                        min,
                    ) == rest;
                assert(spec_signal(timers[j], now, min) == whole);
            } else {
                assert(spec_signal(timers[timers.len() - 1], now, min) == whole);
            }
        }
    }
}

/// One timer at its deadline dominates the wait: if any timer's own signal
/// is `Break`, the combined decision is `Break`, whatever the other timers
/// say.
pub proof fn lemma_deadline_dominates(timers: Seq<LoopTimer>, now: Instant, min: Duration, i: int)
    requires
        0 <= i < timers.len(),
        spec_signal(timers[i], now, min) == Decider::Break,
    ensures
        spec_decide(timers, now, min) == Decider::Break,
{
    lemma_decide_is_most_urgent(timers, now, min);
}

/// A wait over a single timer whose deadline has passed — the time since its
/// last end has reached its target less the one-millisecond safety margin —
/// decides `Break` at once, for any busy-spin threshold.
pub proof fn lemma_single_due_timer_breaks(t: LoopTimer, now: Instant, min: Duration)
    requires
        sat_sub(now.nanos, t.end.nanos) >= sat_sub(t.target.nanos, NANOS_PER_MILLI),
    ensures
        spec_decide(seq![t], now, min) == Decider::Break,
{
    assert(spec_signal(t, now, min) == Decider::Break);
    lemma_deadline_dominates(seq![t], now, min, 0);
}

} // verus!
