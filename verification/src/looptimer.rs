//! A basic timer record for looping constructs.

use vstd::prelude::*;

use crate::time::{sat_add32, sat_sub, Duration, Instant};

verus! {

/// The variables necessary to keep track of one loop's timings.
///
/// The owning loop mutates a record through [`LoopTimer::start`],
/// [`LoopTimer::end`] and [`LoopTimer::reset_count`]; the sleep coordinator
/// only reads it.
#[derive(Clone, Copy, PartialEq, Eq, Structural, Debug)]
pub struct LoopTimer {
    /// The last start of the loop.
    pub start: Instant,
    /// The last end of the loop.
    pub end: Instant,
    /// The last measured duration of the loop.
    pub time: Duration,
    /// The intended duration of the loop.
    pub target: Duration,
    /// How many iterations have been done.
    pub count: u32,
}

impl LoopTimer {
    /// Creates a new loop timer with the given target loop duration, taking
    /// `now` as the current clock reading.
    pub fn new(now: Instant, target: Duration) -> (r: LoopTimer)
        ensures
            r == LoopTimer::new_spec(now, target),
    {
        LoopTimer::new_from(now, target)
    }

    /// Creates a new loop timer with the given target loop duration and a
    /// starting instant.
    pub fn new_from(now: Instant, target: Duration) -> (r: LoopTimer)
        ensures
            r == LoopTimer::new_spec(now, target),
    {
        LoopTimer {
            count: 0,
            start: now,
            end: now.saturating_add(target),
            time: target,
            target,
        }
    }

    /// The record a freshly created timer holds: no iterations yet, the
    /// start at `now`, and the end and measured time primed with the target
    /// so the first wait behaves as if one nominal iteration just finished.
    pub open spec fn new_spec(now: Instant, target: Duration) -> LoopTimer {
        LoopTimer {
            count: 0,
            start: now,
            end: Instant { nanos: crate::time::sat_add(now.nanos, target.nanos) },
            time: target,
            target,
        }
    }

    /// Resets the loop counter.
    pub fn reset_count(&mut self)
        ensures
            *final(self) == (LoopTimer { count: 0, ..*old(self) }),
    {
        self.count = 0;
    }

    /// Begins the loop measurement at clock reading `now`.
    pub fn start(&mut self, now: Instant)
        ensures
            *final(self) == (LoopTimer { start: now, ..*old(self) }),
    {
        self.start = now;
    }

    /// Finishes the loop measurement at clock reading `now`: records the end,
    /// measures the iteration as the time from the last start to `now`
    /// (clamped at zero), and counts the iteration.
    pub fn end(&mut self, now: Instant)
        ensures
            *final(self) == (LoopTimer {
                end: now,
                time: Duration { nanos: sat_sub(now.nanos, old(self).start.nanos) },
                count: sat_add32(old(self).count, 1),
                ..*old(self)
            }),
    {
        self.end = now;
        self.time = self.end.saturating_duration_since(self.start);
        if self.count < u32::MAX {
            self.count = self.count + 1;
        }
    }

    /// Returns the length of the last loop iteration, in nanoseconds.
    pub fn length(&self) -> (r: u128)
        ensures
            r == self.time.nanos as u128,
    {
        self.time.as_nanos()
    }
}

} // verus!
