//! Plain nanosecond-count representations of spans and points in time.
//!
//! The scheduler and the sleep coordinator never read a clock themselves;
//! callers sample whatever monotonic clock they own and pass readings in as
//! [`Instant`] values. Arithmetic that could underflow clamps at zero and
//! arithmetic that could overflow clamps at the top of the range, so every
//! operation is total.

use vstd::prelude::*;

verus! {

/// Nanoseconds in one second.
pub const NANOS_PER_SEC: u64 = 1_000_000_000;

/// Nanoseconds in one millisecond.
pub const NANOS_PER_MILLI: u64 = 1_000_000;

/// Addition on `u64` that clamps at `u64::MAX` instead of wrapping.
pub open spec fn sat_add(a: u64, b: u64) -> u64 {
    if a + b > u64::MAX {
        u64::MAX
    } else {
        (a + b) as u64
    }
}

/// Subtraction on `u64` that clamps at zero instead of wrapping.
pub open spec fn sat_sub(a: u64, b: u64) -> u64 {
    if a >= b {
        (a - b) as u64
    } else {
        0
    }
}

/// Addition on `u32` that clamps at `u32::MAX` instead of wrapping.
pub open spec fn sat_add32(a: u32, b: u32) -> u32 {
    if a + b > u32::MAX {
        u32::MAX
    } else {
        (a + b) as u32
    }
}

/// A span of time, counted in whole nanoseconds.
#[derive(Clone, Copy, PartialEq, Eq, Structural, Debug)]
pub struct Duration {
    /// The length of the span in nanoseconds.
    pub nanos: u64,
}

/// A point on a monotonic clock, counted in whole nanoseconds from an
/// arbitrary origin that stays fixed for the life of the process.
#[derive(Clone, Copy, PartialEq, Eq, Structural, Debug)]
pub struct Instant {
    /// Nanoseconds since the clock's origin.
    pub nanos: u64,
}

impl Duration {
    /// A span of `nanos` nanoseconds.
    pub fn from_nanos(nanos: u64) -> (r: Duration)
        ensures
            r.nanos == nanos,
    {
        Duration { nanos }
    }

    /// A span of `millis` milliseconds.
    pub fn from_millis(millis: u64) -> (r: Duration)
        requires
            millis * NANOS_PER_MILLI <= u64::MAX,
        ensures
            r.nanos == millis * NANOS_PER_MILLI,
    {
        Duration { nanos: millis * NANOS_PER_MILLI }
    }

    /// A span of `secs` seconds.
    pub fn from_secs(secs: u64) -> (r: Duration)
        requires
            secs * NANOS_PER_SEC <= u64::MAX,
        ensures
            r.nanos == secs * NANOS_PER_SEC,
    {
        Duration { nanos: secs * NANOS_PER_SEC }
    }

    /// The span in whole nanoseconds.
    pub fn as_nanos(&self) -> (r: u128)
        ensures
            r == self.nanos as u128,
    {
        self.nanos as u128
    }

    /// The span shortened by `other`, clamped at zero.
    pub fn saturating_sub(self, other: Duration) -> (r: Duration)
        ensures
            r.nanos == sat_sub(self.nanos, other.nanos),
    {
        if self.nanos >= other.nanos {
            Duration { nanos: self.nanos - other.nanos }
        } else {
            Duration { nanos: 0 }
        }
    }

    /// The span lengthened by `other`, clamped at the top of the range.
    pub fn saturating_add(self, other: Duration) -> (r: Duration)
        ensures
            r.nanos == sat_add(self.nanos, other.nanos),
    {
        if self.nanos <= u64::MAX - other.nanos {
            Duration { nanos: self.nanos + other.nanos }
        } else {
            Duration { nanos: u64::MAX }
        }
    }
}

impl Instant {
    /// The instant `d` later than `self`, clamped at the top of the range.
    pub fn saturating_add(self, d: Duration) -> (r: Instant)
        ensures
            r.nanos == sat_add(self.nanos, d.nanos),
    {
        if self.nanos <= u64::MAX - d.nanos {
            Instant { nanos: self.nanos + d.nanos }
        } else {
            Instant { nanos: u64::MAX }
        }
    }

    /// The time that passed from `earlier` to `self`, clamped at zero when
    /// `earlier` is in fact the later reading.
    pub fn saturating_duration_since(self, earlier: Instant) -> (r: Duration)
        ensures
            r.nanos == sat_sub(self.nanos, earlier.nanos),
    {
        if self.nanos >= earlier.nanos {
            Duration { nanos: self.nanos - earlier.nanos }
        } else {
            Duration { nanos: 0 }
        }
    }
}

} // verus!
