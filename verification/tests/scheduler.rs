use looptime::tickloop::{TickLoopEvent, TickLoopState, TockLoopEvent};
use looptime::time::{Duration, Instant};

fn at_ms(ms: u64) -> Instant {
    Instant { nanos: ms * 1_000_000 }
}

/// One caller-visible frame: one `pre`, then tick attempts until one
/// declines. Returns how many ticks fired.
fn run_frame(s: &mut TickLoopState, now: Instant) -> u32 {
    s.pre();
    let mut fired: u32 = 0;
    while s.tick(now, |_e: TickLoopEvent| {}) {
        fired += 1;
    }
    fired
}

#[test]
fn fixed_rate_tick_count() {
    // Rate 20 => one tick every 50ms. Ten whole tick periods, one frame
    // each, no catch-up needed: exactly ten ticks.
    let mut s = TickLoopState::new(20, at_ms(0));
    for k in 1..=10u64 {
        let fired = run_frame(&mut s, at_ms(50 * k));
        assert_eq!(fired, 1);
    }
    assert_eq!(s.total_ticks, 10);
}

#[test]
fn tick_needs_strictly_past_deadline() {
    let mut s = TickLoopState::new(20, at_ms(0));
    s.pre();
    // The next tick is due at the creation instant; a reading equal to it
    // does not fire, one nanosecond past it does.
    assert!(!s.tick(at_ms(0), |_e: TickLoopEvent| {}));
    assert!(s.tick(Instant { nanos: 1 }, |_e: TickLoopEvent| {}));
}

#[test]
fn tick_event_carries_pre_tick_snapshot() {
    let mut s = TickLoopState::new(20, at_ms(0));
    s.pre();
    let mut seen: Option<TickLoopEvent> = None;
    let fired = s.tick(at_ms(60), |e: TickLoopEvent| {
        seen = Some(e);
    });
    assert!(fired);
    let e = seen.expect("tick fired, so the reaction must have run");
    assert_eq!(e.target_tickrate, 20);
    assert_eq!(e.time, at_ms(60));
    assert_eq!(e.duration, Duration { nanos: 50_000_000 });
    assert_eq!(e.ticks, 0); // lifetime total before this tick
    assert_eq!(s.total_ticks, 1);
}

#[test]
fn catch_up_is_capped_and_backlog_dropped() {
    // Rate 20 => 50ms ticks, catch-up bound 1. A 220ms stall leaves a
    // backlog of more than four periods; with immediately following frames
    // exactly one tick fires per frame over the five frames needed to
    // resync, never all at once.
    let mut s = TickLoopState::new(20, at_ms(0));
    for k in 0..5u64 {
        let fired = run_frame(&mut s, at_ms(220 + k));
        assert_eq!(fired, 1);
    }
    // Resynced: logical time has caught up past the clock; nothing more
    // fires, and the backlog was dropped rather than queued.
    let fired = run_frame(&mut s, at_ms(225));
    assert_eq!(fired, 0);
    assert_eq!(s.total_ticks, 5);
    assert_eq!(s.next_game_tick, at_ms(250));
}

#[test]
fn tock_average_rate_over_one_second() {
    let mut s = TickLoopState::new(20, at_ms(0));
    // The first tock is due at creation; fire it to rebase the cadence.
    assert!(s.tock(at_ms(0), |_e: TockLoopEvent| {}));
    assert_eq!(s.total_tocks, 1);
    // Exactly 20 ticks over exactly one second.
    for k in 1..=20u64 {
        assert_eq!(run_frame(&mut s, at_ms(50 * k)), 1);
    }
    let mut seen: Option<TockLoopEvent> = None;
    assert!(s.tock(at_ms(1000), |e: TockLoopEvent| {
        seen = Some(e);
    }));
    let e = seen.expect("tock fired, so the reaction must have run");
    assert_eq!(e.average_tickrate.ticks, 20);
    assert_eq!(e.average_tickrate.elapsed, Duration { nanos: 1_000_000_000 });
    let hertz =
        e.average_tickrate.ticks as f64 / (e.average_tickrate.elapsed.nanos as f64 / 1e9);
    assert!((hertz - 20.0).abs() < 1e-9);
    assert_eq!(e.last_tock, at_ms(0));
    assert_eq!(e.ticks, 20);
    assert_eq!(e.tocks, 1);
    // The tock reset the rolling counter and rebased on `now`.
    assert_eq!(s.tick_count, 0);
    assert_eq!(s.last_tock_time, at_ms(1000));
    assert_eq!(s.next_game_tock, at_ms(2000));
}

#[test]
fn tock_skips_ahead_instead_of_catching_up() {
    let mut s = TickLoopState::new(20, at_ms(0));
    // A long stall: the tock fires once and reschedules one second past
    // `now`, not past the missed schedule.
    assert!(s.tock(at_ms(3500), |_e: TockLoopEvent| {}));
    assert_eq!(s.next_game_tock, at_ms(4500));
    assert!(!s.tock(at_ms(3600), |_e: TockLoopEvent| {}));
    assert_eq!(s.total_tocks, 1);
}

#[test]
fn tock_not_due_declines() {
    let mut s = TickLoopState::new(20, at_ms(0));
    assert!(s.tock(at_ms(0), |_e: TockLoopEvent| {}));
    let mut ran = false;
    assert!(!s.tock(at_ms(999), |_e: TockLoopEvent| {
        ran = true;
    }));
    assert!(!ran);
}

#[test]
fn interpolation_is_one_at_a_due_tick() {
    // At creation the next tick is due exactly at the creation reading.
    let s = TickLoopState::new(20, at_ms(0));
    let f = s.interpolation(at_ms(0));
    assert_eq!(f.numerator, f.denominator);
    assert_eq!(f.numerator as f64 / f.denominator as f64, 1.0);
}

#[test]
fn interpolation_is_zero_one_period_early() {
    let mut s = TickLoopState::new(20, at_ms(0));
    s.pre();
    assert!(s.tick(Instant { nanos: 1 }, |_e: TickLoopEvent| {}));
    // The next tick is now due at 50ms; one full period earlier is 0ms.
    let f = s.interpolation(at_ms(0));
    assert_eq!(f.numerator, 0);
    assert_eq!(f.numerator as f64 / f.denominator as f64, 0.0);
}

#[test]
fn interpolation_is_unclamped_when_behind() {
    let mut s = TickLoopState::new(20, at_ms(0));
    s.pre();
    assert!(s.tick(Instant { nanos: 1 }, |_e: TickLoopEvent| {}));
    // Next tick due at 50ms; at 150ms the factor is (100ms + 50ms) / 50ms.
    let f = s.interpolation(at_ms(150));
    assert_eq!(f.numerator, 150_000_000);
    assert_eq!(f.denominator, 50_000_000);
    assert_eq!(f.numerator as f64 / f.denominator as f64, 3.0);
}

#[test]
fn accessors_report_configuration() {
    let s = TickLoopState::new(50, at_ms(7));
    assert_eq!(s.get_minimum_tick_duration(), Duration { nanos: 20_000_000 });
    assert_eq!(s.get_start(), at_ms(7));
}

#[test]
fn pre_resets_only_the_frame_counter() {
    let mut s = TickLoopState::new(20, at_ms(0));
    s.pre();
    assert!(s.tick(at_ms(60), |_e: TickLoopEvent| {}));
    assert_eq!(s.loops, 1);
    let before = s;
    s.pre();
    assert_eq!(s.loops, 0);
    assert_eq!(s.total_ticks, before.total_ticks);
    assert_eq!(s.next_game_tick, before.next_game_tick);
    assert_eq!(s.tick_count, before.tick_count);
}
