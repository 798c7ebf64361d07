use looptime::looptimer::LoopTimer;
use looptime::sleep::{decide, Decider, DEFAULT_MIN_SPIN_NANOS};
use looptime::time::{Duration, Instant};

fn at_us(us: u64) -> Instant {
    Instant { nanos: us * 1_000 }
}

fn ms(ms: u64) -> Duration {
    Duration { nanos: ms * 1_000_000 }
}

/// A timer whose loop last ended at `end`, aiming at `target` per iteration.
fn timer(end: Instant, target: Duration) -> LoopTimer {
    LoopTimer { start: end, end, time: target, target, count: 0 }
}

#[test]
fn single_due_timer_breaks() {
    // Elapsed since the timer's end is well past its target less the 1ms
    // margin: the wait ends at once, with no further simulated time.
    let t = timer(at_us(0), ms(5));
    let d = decide(&[t], at_us(10_000), None);
    assert_eq!(d, Decider::Break);
}

#[test]
fn due_timer_breaks_exactly_at_margin() {
    // target 5ms => margin 4ms; elapsed exactly 4ms already breaks.
    let t = timer(at_us(0), ms(5));
    assert_eq!(decide(&[t], at_us(4_000), None), Decider::Break);
    // One microsecond earlier it spins instead.
    assert_eq!(decide(&[t], at_us(3_999), None), Decider::BusyLoop);
}

#[test]
fn deadline_timer_dominates_fresh_timer() {
    // Timer a has reached its deadline (elapsed == target); timer b just
    // finished an iteration (elapsed == 0). The due timer wins: Break.
    let now = at_us(20_000);
    let a = timer(at_us(0), ms(20));
    let b = timer(now, ms(20));
    assert_eq!(decide(&[a, b], now, None), Decider::Break);
    assert_eq!(decide(&[b, a], now, None), Decider::Break);
    // Alone, the fresh timer would only yield.
    assert_eq!(decide(&[b], now, None), Decider::YieldNow);
}

#[test]
fn spin_beats_yield() {
    // One timer past the busy threshold but short of its margin, one
    // fresh: the wait busy-spins.
    let now = at_us(1_000);
    let close = timer(at_us(0), ms(20)); // elapsed 1ms, margin 19ms
    let fresh = timer(now, ms(20)); // elapsed 0
    assert_eq!(decide(&[close, fresh], now, None), Decider::BusyLoop);
    assert_eq!(decide(&[fresh, close], now, None), Decider::BusyLoop);
}

#[test]
fn yields_far_from_every_deadline() {
    let now = at_us(100);
    // elapsed 100us is under the default busy threshold, margin far away.
    let t = timer(at_us(0), ms(20));
    assert_eq!(decide(&[t], now, None), Decider::YieldNow);
}

#[test]
fn default_threshold_boundary() {
    let t = timer(at_us(0), ms(20));
    let threshold = Instant { nanos: DEFAULT_MIN_SPIN_NANOS };
    // Exactly at the threshold it still yields; strictly past it, it spins.
    assert_eq!(decide(&[t], threshold, None), Decider::YieldNow);
    assert_eq!(
        decide(&[t], Instant { nanos: DEFAULT_MIN_SPIN_NANOS + 1 }, None),
        Decider::BusyLoop
    );
}

#[test]
fn explicit_threshold_is_honoured() {
    let t = timer(at_us(0), ms(20));
    // With a 5ms threshold, 2ms elapsed still yields...
    assert_eq!(decide(&[t], at_us(2_000), Some(ms(5))), Decider::YieldNow);
    // ...and 6ms elapsed spins.
    assert_eq!(decide(&[t], at_us(6_000), Some(ms(5))), Decider::BusyLoop);
}

#[test]
fn sub_millisecond_target_breaks_at_once() {
    // A target below the 1ms safety margin clamps the margin to zero, so
    // the timer is due immediately.
    let t = timer(at_us(0), Duration { nanos: 500_000 });
    assert_eq!(decide(&[t], at_us(0), None), Decider::Break);
}

#[test]
fn clock_before_timer_end_counts_as_no_elapsed_time() {
    // A reading earlier than the timer's recorded end clamps elapsed to
    // zero rather than wrapping around.
    let t = timer(at_us(10_000), ms(20));
    assert_eq!(decide(&[t], at_us(5_000), None), Decider::YieldNow);
}

#[test]
fn no_timers_means_yield() {
    assert_eq!(decide(&[], at_us(0), None), Decider::YieldNow);
}

#[test]
fn fold_keeps_the_more_urgent_decision() {
    let (brk, spin, yld) = (Decider::Break, Decider::BusyLoop, Decider::YieldNow);
    assert_eq!(brk.fold(brk), brk);
    assert_eq!(brk.fold(spin), brk);
    assert_eq!(brk.fold(yld), brk);
    assert_eq!(spin.fold(brk), brk);
    assert_eq!(spin.fold(spin), spin);
    assert_eq!(spin.fold(yld), spin);
    assert_eq!(yld.fold(brk), brk);
    assert_eq!(yld.fold(spin), spin);
    assert_eq!(yld.fold(yld), yld);
}
