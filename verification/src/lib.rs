//! Timing primitives for loop-driven applications.
//!
//! Two independent pieces, composed by a caller-owned loop:
//!
//! * [`tickloop::TickLoopState`] — a fixed-timestep scheduler that advances
//!   logical time in discrete ticks with bounded catch-up, reports an average
//!   tick rate once per second (a "tock"), and exposes an interpolation
//!   factor for rendering between ticks.
//! * [`sleep`] — the decision logic of a cooperative sleep/spin coordinator
//!   that, given a set of loop timers, tells the caller whether to yield its
//!   time slice, busy-spin, or stop waiting.
//!
//! All time is carried by the plain nanosecond-count types of [`time`]; the
//! surrounding application samples its clock and hands readings in.

pub mod looptimer;
pub mod sleep;
pub mod tickloop;
pub mod time;
