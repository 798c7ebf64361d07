//! A fixed-timestep scheduler: ticks at a configured rate with bounded
//! catch-up, tocks once per second to report the observed average tick rate,
//! and exposes an interpolation factor for rendering between ticks.
//!
//! The caller drives a frame loop: once per frame it calls
//! [`TickLoopState::pre`], then [`TickLoopState::tick`] zero or more times
//! (at most the catch-up bound fire), then at most one
//! [`TickLoopState::tock`] attempt, then reads
//! [`TickLoopState::interpolation`] for rendering.

use vstd::prelude::*;

use crate::time::{sat_add, sat_add32, sat_sub, Duration, Instant, NANOS_PER_SEC};

verus! {

/// The cadence state of a fixed-timestep scheduler.
///
/// The fields are exposed for inspection and for speaking about states in
/// contracts; mutate a live scheduler only through its methods.
#[derive(Clone, Copy, PartialEq, Eq, Structural, Debug)]
pub struct TickLoopState {
    /// When the scheduler was created.
    pub start: Instant,
    /// The amount of ticks to attempt per second.
    pub ticks_per_second: u32,
    /// The normal duration between individual ticks.
    pub tick_duration: Duration,
    /// The normal duration between individual tocks.
    pub tock_duration: Duration,
    /// How many ticks may fire within one caller-visible frame when catching
    /// up with lost ticks.
    pub max_frameskip: i32,
    /// Counter of catch-up ticks fired in the current frame.
    pub loops: i32,
    /// The moment when the next tick is due.
    pub next_game_tick: Instant,
    /// The moment when the next tock is due.
    pub next_game_tock: Instant,
    /// The time when the last tick fired.
    pub last_tick_time: Instant,
    /// The time when the last tock fired.
    pub last_tock_time: Instant,
    /// How many ticks fired since the last tock.
    pub tick_count: u32,
    /// Total number of ticks the loop went through.
    pub total_ticks: u64,
    /// Total number of tocks the loop went through.
    pub total_tocks: u64,
}

/// Event handed to the caller's reaction when a tick fires.
#[derive(Clone, Copy, PartialEq, Eq, Structural, Debug)]
pub struct TickLoopEvent {
    /// The targeted tick rate.
    pub target_tickrate: u32,
    /// The current point in time.
    pub time: Instant,
    /// The intended tick duration.
    pub duration: Duration,
    /// The total number of ticks the loop went through before this one.
    pub ticks: u64,
}

/// An observed tick rate, kept exact as a ratio: `ticks` ticks over the span
/// `elapsed`. The rate in ticks per second is `ticks` divided by `elapsed`
/// in seconds.
#[derive(Clone, Copy, PartialEq, Eq, Structural, Debug)]
pub struct TickRate {
    /// How many ticks fired over the span.
    pub ticks: u32,
    /// The span they fired over.
    pub elapsed: Duration,
}

/// Event handed to the caller's reaction when a tock fires (once per
/// second).
#[derive(Clone, Copy, PartialEq, Eq, Structural, Debug)]
pub struct TockLoopEvent {
    /// The targeted tick rate.
    pub target_tickrate: u32,
    /// The current point in time.
    pub time: Instant,
    /// The intended tick duration.
    pub duration: Duration,
    /// The total number of ticks the loop went through.
    pub ticks: u64,
    /// The total number of tocks the loop went through before this one.
    pub tocks: u64,
    /// The time of the previous tock.
    pub last_tock: Instant,
    /// The average tick rate observed since the previous tock.
    pub average_tickrate: TickRate,
}

/// The interpolation factor between the previous and the next tick, kept
/// exact as the ratio `numerator / denominator`. It is not clamped above:
/// when ticks have fallen behind it exceeds one.
#[derive(Clone, Copy, PartialEq, Eq, Structural, Debug)]
pub struct Interpolation {
    /// Time from one tick duration before the next due tick to now, clamped
    /// at zero.
    pub numerator: u64,
    /// One tick duration.
    pub denominator: u64,
}

/// The tick duration derived from a target rate: one second divided by the
/// rate, in whole nanoseconds.
pub open spec fn spec_tick_duration_nanos(ticks_per_second: u32) -> u64 {
    NANOS_PER_SEC / (ticks_per_second as u64)
}

/// The state a freshly created scheduler holds: every instant primed with
/// the creation reading and every counter at zero, with the catch-up bound
/// fixed at one.
pub open spec fn spec_new(ticks_per_second: u32, now: Instant) -> TickLoopState {
    TickLoopState {
        start: now,
        ticks_per_second,
        tick_duration: Duration { nanos: spec_tick_duration_nanos(ticks_per_second) },
        tock_duration: Duration { nanos: NANOS_PER_SEC },
        max_frameskip: 1,
        loops: 0,
        next_game_tick: now,
        next_game_tock: now,
        last_tick_time: now,
        last_tock_time: now,
        tick_count: 0,
        total_ticks: 0,
        total_tocks: 0,
    }
}

/// The state after a frame reset: the per-frame catch-up counter back at
/// zero, everything else untouched.
pub open spec fn spec_pre(s: TickLoopState) -> TickLoopState {
    TickLoopState { loops: 0, ..s }
}

/// Whether a tick attempt at clock reading `now` fires: `now` is strictly
/// past the next due tick and the per-frame catch-up counter has not
/// reached the bound.
pub open spec fn spec_tick_fires(s: TickLoopState, now: Instant) -> bool {
    now.nanos > s.next_game_tick.nanos && s.loops < s.max_frameskip
}

/// The snapshot a firing tick hands to the caller's reaction, carrying the
/// counts from before the tick.
pub open spec fn spec_tick_event(s: TickLoopState, now: Instant) -> TickLoopEvent {
    TickLoopEvent {
        target_tickrate: s.ticks_per_second,
        time: now,
        duration: s.tick_duration,
        ticks: s.total_ticks,
    }
}

/// The state after a tick attempt at `now`: on a fire, the next due tick
/// advances by exactly one tick duration (never rebased on `now` — that is
/// what lets later attempts in the same frame catch up), and the per-frame,
/// per-tock and lifetime counters go up by one; otherwise nothing changes.
pub open spec fn spec_tick(s: TickLoopState, now: Instant) -> TickLoopState {
    if spec_tick_fires(s, now) {
        TickLoopState {
            last_tick_time: now,
            next_game_tick: Instant { nanos: sat_add(s.next_game_tick.nanos, s.tick_duration.nanos) },
            loops: (s.loops + 1) as i32,
            tick_count: sat_add32(s.tick_count, 1),
            total_ticks: sat_add(s.total_ticks, 1),
            ..s
        }
    } else {
        s
    }
}

/// Whether a tock attempt at clock reading `now` fires: the next due tock
/// is at or before `now`.
pub open spec fn spec_tock_fires(s: TickLoopState, now: Instant) -> bool {
    s.next_game_tock.nanos <= now.nanos
}

/// The snapshot a firing tock hands to the caller's reaction: the counts
/// from before the tock, and the average tick rate as the ticks counted
/// since the previous tock over the time passed since it.
pub open spec fn spec_tock_event(s: TickLoopState, now: Instant) -> TockLoopEvent {
    TockLoopEvent {
        target_tickrate: s.ticks_per_second,
        time: now,
        duration: s.tick_duration,
        ticks: s.total_ticks,
        tocks: s.total_tocks,
        last_tock: s.last_tock_time,
        average_tickrate: TickRate {
            ticks: s.tick_count,
            elapsed: Duration { nanos: sat_sub(now.nanos, s.last_tock_time.nanos) },
        },
    }
}

/// The state after a tock attempt at `now`: on a fire, the per-tock tick
/// counter resets, the tock total goes up by one, and the next due tock is
/// rebased to exactly one tock duration after `now` (a stalled tock skips
/// ahead instead of catching up); otherwise nothing changes.
pub open spec fn spec_tock(s: TickLoopState, now: Instant) -> TickLoopState {
    if spec_tock_fires(s, now) {
        TickLoopState {
            tick_count: 0,
            total_tocks: sat_add(s.total_tocks, 1),
            last_tock_time: now,
            next_game_tock: Instant { nanos: sat_add(now.nanos, s.tock_duration.nanos) },
            ..s
        }
    } else {
        s
    }
}

/// The interpolation factor at clock reading `now`: the time from one tick
/// duration before the next due tick to `now` (clamped at zero), over one
/// tick duration.
pub open spec fn spec_interpolation(s: TickLoopState, now: Instant) -> Interpolation {
    Interpolation {
        numerator: sat_sub(sat_add(now.nanos, s.tick_duration.nanos), s.next_game_tick.nanos),
        denominator: s.tick_duration.nanos,
    }
}

impl TickLoopState {
    /// Creates a new tick loop with the given target tick rate, taking `now`
    /// as the current clock reading.
    pub fn new(ticks_per_second: u32, now: Instant) -> (r: TickLoopState)
        requires
            ticks_per_second > 0,
        ensures
            r == spec_new(ticks_per_second, now),
    {
        TickLoopState {
            start: now,
            ticks_per_second,
            tick_duration: Duration::from_nanos(NANOS_PER_SEC / (ticks_per_second as u64)),
            tock_duration: Duration::from_secs(1),
            max_frameskip: 1,
            loops: 0,
            next_game_tick: now,
            next_game_tock: now,
            last_tick_time: now,
            last_tock_time: now,
            tick_count: 0,
            total_ticks: 0,
            total_tocks: 0,
        }
    }

    /// Resets the per-frame catch-up counter. Call exactly once per
    /// caller-visible frame, before any tick attempts for that frame.
    pub fn pre(&mut self)
        ensures
            *final(self) == spec_pre(*old(self)),
    {
        self.loops = 0;
    }

    /// Attempts to do a tick at clock reading `current_time`, returning
    /// whether one fired. On a fire, `function` runs once, synchronously,
    /// with a snapshot of the pre-tick counts.
    pub fn tick<F: FnOnce(TickLoopEvent)>(&mut self, current_time: Instant, function: F) -> (fired:
        bool)
        requires
            spec_tick_fires(*old(self), current_time) ==> call_requires(
                function,
                (spec_tick_event(*old(self), current_time),),
            ),
        ensures
            fired == spec_tick_fires(*old(self), current_time),
            *final(self) == spec_tick(*old(self), current_time),
            fired ==> call_ensures(
                function,
                (spec_tick_event(*old(self), current_time),),
                (),
            ),
    {
        if current_time.nanos > self.next_game_tick.nanos && self.loops < self.max_frameskip {
            function(TickLoopEvent {
                target_tickrate: self.ticks_per_second,
                time: current_time,
                duration: self.tick_duration,
                ticks: self.total_ticks,
            });
            self.last_tick_time = current_time;
            self.next_game_tick = self.next_game_tick.saturating_add(self.tick_duration);
            self.loops = self.loops + 1;
            if self.tick_count < u32::MAX {
                self.tick_count = self.tick_count + 1;
            }
            if self.total_ticks < u64::MAX {
                self.total_ticks = self.total_ticks + 1;
            }
            true
        } else {
            false
        }
    }

    /// Attempts to do a tock (once per second) at clock reading
    /// `current_time`, returning whether one fired. On a fire, `function`
    /// runs once, synchronously, with a snapshot holding the average tick
    /// rate observed since the previous tock.
    pub fn tock<F: FnOnce(TockLoopEvent)>(&mut self, current_time: Instant, function: F) -> (fired:
        bool)
        requires
            spec_tock_fires(*old(self), current_time) ==> call_requires(
                function,
                (spec_tock_event(*old(self), current_time),),
            ),
        ensures
            fired == spec_tock_fires(*old(self), current_time),
            *final(self) == spec_tock(*old(self), current_time),
            fired ==> call_ensures(
                function,
                (spec_tock_event(*old(self), current_time),),
                (),
            ),
    {
        if self.next_game_tock.nanos <= current_time.nanos {
            let elapsed = current_time.saturating_duration_since(self.last_tock_time);
            function(TockLoopEvent {
                target_tickrate: self.ticks_per_second,
                time: current_time,
                duration: self.tick_duration,
                ticks: self.total_ticks,
                tocks: self.total_tocks,
                last_tock: self.last_tock_time,
                average_tickrate: TickRate { ticks: self.tick_count, elapsed },
            });
            self.tick_count = 0;
            if self.total_tocks < u64::MAX {
                self.total_tocks = self.total_tocks + 1;
            }
            self.last_tock_time = current_time;
            self.next_game_tock = current_time.saturating_add(self.tock_duration);
            true
        } else {
            false
        }
    }

    /// Returns the interpolation factor between the previous and next tick,
    /// for smooth rendering, as an exact ratio.
    pub fn interpolation(&self, current_time: Instant) -> (r: Interpolation)
        ensures
            r == spec_interpolation(*self, current_time),
    {
        let shifted = current_time.saturating_add(self.tick_duration);
        let delta = shifted.saturating_duration_since(self.next_game_tick);
        Interpolation { numerator: delta.nanos, denominator: self.tick_duration.nanos }
    }

    /// Returns the intended minimum duration of a single tick.
    pub fn get_minimum_tick_duration(&self) -> (r: Duration)
        ensures
            r == self.tick_duration,
    {
        self.tick_duration
    }

    /// Returns when the tick loop was created.
    pub fn get_start(&self) -> (r: Instant)
        ensures
            r == self.start,
    {
        self.start
    }
}

/// The state after a sequence of tick attempts, the attempt `k` sampling
/// the clock at `nows[k]`.
pub open spec fn spec_run_ticks(s: TickLoopState, nows: Seq<Instant>) -> TickLoopState
    decreases nows.len(),
{
    if nows.len() == 0 {
        s
    } else {
        spec_run_ticks(spec_tick(s, nows[0]), nows.drop_first())
    }
}

/// How many of a sequence of tick attempts fire, the attempt `k` sampling
/// the clock at `nows[k]`.
pub open spec fn spec_fired_count(s: TickLoopState, nows: Seq<Instant>) -> nat
    decreases nows.len(),
{
    if nows.len() == 0 {
        0
    } else {
        (if spec_tick_fires(s, nows[0]) {
            1 as nat
        } else {
            0 as nat
        }) + spec_fired_count(spec_tick(s, nows[0]), nows.drop_first())
    }
}

/// Within one run of tick attempts, at most `max_frameskip - loops` fire,
/// and as long as the lifetime total stays below its ceiling, it goes up by
/// exactly the number that fired — no backlog is ever double-counted.
pub proof fn lemma_tick_run_bound(s: TickLoopState, nows: Seq<Instant>)
    ensures
        spec_fired_count(s, nows) <= (if s.loops < s.max_frameskip {
            s.max_frameskip - s.loops
        } else {
            0
        }),
        s.total_ticks + spec_fired_count(s, nows) <= u64::MAX ==> spec_run_ticks(
            s,
            nows,
        ).total_ticks == s.total_ticks + spec_fired_count(s, nows),
    decreases nows.len(),
{
    if nows.len() > 0 {
        lemma_tick_run_bound(spec_tick(s, nows[0]), nows.drop_first());
    }
}

/// Catch-up bound: however the clock jumped beforehand, a frame that starts
/// with one `pre` fires at most `max_frameskip` ticks over any sequence of
/// tick attempts, and the lifetime tick total counts each fired tick
/// exactly once — the rest of the backlog is dropped, not queued.
pub proof fn lemma_catch_up_bound(s: TickLoopState, nows: Seq<Instant>)
    requires
        s.max_frameskip >= 0,
    ensures
        spec_fired_count(spec_pre(s), nows) <= s.max_frameskip,
        s.total_ticks + spec_fired_count(spec_pre(s), nows) <= u64::MAX ==> spec_run_ticks(
            spec_pre(s),
            nows,
        ).total_ticks == s.total_ticks + spec_fired_count(spec_pre(s), nows),
{
    lemma_tick_run_bound(spec_pre(s), nows);
}

/// The standing invariants of the cadence state, at every single step: a
/// tick either leaves the next due tick alone or advances it by exactly one
/// tick duration (clamped only at the top of the range); the per-frame
/// catch-up counter never passes the bound; and the cumulative totals never
/// decrease under any operation.
pub proof fn lemma_step_invariants(s: TickLoopState, now: Instant)
    ensures
        spec_tick(s, now).next_game_tick.nanos == s.next_game_tick.nanos || spec_tick(
            s,
            now,
        ).next_game_tick.nanos == sat_add(s.next_game_tick.nanos, s.tick_duration.nanos),
        s.loops <= s.max_frameskip ==> spec_tick(s, now).loops <= s.max_frameskip,
        spec_tick(s, now).total_ticks >= s.total_ticks,
        spec_tock(s, now).total_tocks >= s.total_tocks,
        spec_pre(s).total_ticks == s.total_ticks && spec_pre(s).total_tocks == s.total_tocks,
{
}

/// One caller-visible frame of an ideally paced loop: one frame reset
/// followed by one tick attempt at clock reading `now`.
pub open spec fn spec_frame(s: TickLoopState, now: Instant) -> TickLoopState {
    spec_tick(spec_pre(s), now)
}

/// The state after `n` ideally paced frames starting from `s`: frame `k`
/// (counted from one) samples the clock at `base` plus `k` tick durations,
/// so no frame ever needs to catch up.
pub open spec fn spec_run_paced(s: TickLoopState, base: Instant, n: nat) -> TickLoopState
    decreases n,
{
    if n == 0 {
        s
    } else {
        let prev = spec_run_paced(s, base, (n - 1) as nat);
        spec_frame(
            prev,
            Instant { nanos: (base.nanos + n * (s.tick_duration.nanos as nat)) as u64 },
        )
    }
}

/// The shape an ideally paced run keeps: after `k` frames the scheduler has
/// fired exactly `k` ticks and the next due tick stands exactly `k` tick
/// durations past the creation reading.
proof fn lemma_paced_run_shape(ticks_per_second: u32, base: Instant, n: nat)
    requires
        0 < ticks_per_second <= NANOS_PER_SEC,
        base.nanos + n * (spec_tick_duration_nanos(ticks_per_second) as nat) <= u64::MAX,
    ensures
        ({
            let d = spec_tick_duration_nanos(ticks_per_second) as nat;
            let s = spec_run_paced(spec_new(ticks_per_second, base), base, n);
            &&& s.total_ticks == n
            &&& s.next_game_tick.nanos == base.nanos + n * d
            &&& s.tick_duration.nanos == d
            &&& s.max_frameskip == 1
        }),
    decreases n,
{
    let d = spec_tick_duration_nanos(ticks_per_second) as nat;
    let s0 = spec_new(ticks_per_second, base);
    assert(d >= 1) by (nonlinear_arith)
        requires
            d == (NANOS_PER_SEC as nat) / (ticks_per_second as nat),
            0 < ticks_per_second <= NANOS_PER_SEC,
    ;
    if n > 0 {
        let m = (n - 1) as nat;
        assert(m * d <= n * d) by (nonlinear_arith)
            requires
                m <= n,
                d >= 0,
        ;
        lemma_paced_run_shape(ticks_per_second, base, m);
        let prev = spec_run_paced(s0, base, m);
        assert(n * d == m * d + d) by (nonlinear_arith)
            requires
                m == n - 1,
        ;
        assert(n <= n * d) by (nonlinear_arith)
            requires
                d >= 1,
                n >= 0,
        ;
        let now = Instant { nanos: (base.nanos + n * d) as u64 };
        assert(spec_tick_fires(spec_pre(prev), now));
        assert(spec_run_paced(s0, base, n) == spec_frame(prev, now));
        let sfinal = spec_run_paced(s0, base, n);
        assert(prev.next_game_tick.nanos + d <= u64::MAX);
        assert(sfinal.next_game_tick.nanos == sat_add(
            prev.next_game_tick.nanos,
            prev.tick_duration.nanos,
        ));
        assert(sfinal.next_game_tick.nanos == base.nanos + m * d + d);
        assert(sfinal.next_game_tick.nanos == base.nanos + n * d);
    }
}

/// Fixed-rate tick count: a scheduler run for exactly `n` whole tick
/// periods — the clock advancing one tick duration per frame, each frame
/// one `pre` and one tick attempt, so that no catch-up is ever needed —
/// fires exactly `n` ticks.
pub proof fn lemma_fixed_rate_tick_count(ticks_per_second: u32, base: Instant, n: nat)
    requires
        0 < ticks_per_second <= NANOS_PER_SEC,
        base.nanos + n * (spec_tick_duration_nanos(ticks_per_second) as nat) <= u64::MAX,
    ensures
        spec_run_paced(spec_new(ticks_per_second, base), base, n).total_ticks == n,
{
    lemma_paced_run_shape(ticks_per_second, base, n);
}

/// Tock average-rate: when a tock fires exactly one second after the
/// previous one, the average tick rate it reports is exactly the number of
/// ticks counted in between, per one second.
pub proof fn lemma_tock_average_over_one_second(s: TickLoopState, now: Instant)
    requires
        spec_tock_fires(s, now),
        sat_sub(now.nanos, s.last_tock_time.nanos) == NANOS_PER_SEC,
    ensures
        spec_tock_event(s, now).average_tickrate == (TickRate {
            ticks: s.tick_count,
            elapsed: Duration { nanos: NANOS_PER_SEC },
        }),
{
}

/// Interpolation boundary, upper end: at the moment a tick is exactly due
/// (`now` equal to the next due tick, before it advances), the
/// interpolation factor is exactly one.
pub proof fn lemma_interpolation_at_due_tick(s: TickLoopState, now: Instant)
    requires
        now == s.next_game_tick,
        now.nanos + s.tick_duration.nanos <= u64::MAX,
    ensures
        spec_interpolation(s, now).numerator == spec_interpolation(s, now).denominator,
{
}

/// Interpolation boundary, lower end: exactly one tick duration before a
/// pending tick, the interpolation factor is exactly zero.
pub proof fn lemma_interpolation_one_period_early(s: TickLoopState, now: Instant)
    requires
        now.nanos + s.tick_duration.nanos == s.next_game_tick.nanos,
    ensures
        spec_interpolation(s, now).numerator == 0,
{
}

} // verus!
