//! Frame-time bookkeeping for the game loop.
//!
//! The platform's monotonic clock is read through trusted declarations;
//! nothing is assumed of any reading. The bookkeeping around the
//! readings is exact: the tracker always holds the latest reading, the
//! step from the previous one, and the number of updates.

use vstd::prelude::*;

use std::time::{Duration, Instant};

verus! {

/// `std::time::Instant`, opaque to the verifier.
#[verifier::external_type_specification]
#[verifier::external_body]
pub struct ExInstant(Instant);

/// The duration that `Duration::from_nanos` builds from `n` whole
/// nanoseconds; a function of `n` alone.
pub uninterp spec fn spec_duration_from_nanos(n: u64) -> Duration;

/// Relies on `Instant::now`: a reading of the platform's monotonic
/// clock. Nothing is assumed of the reading.
#[verifier::external_body]
fn instant_now() -> Instant {
    Instant::now()
}

/// Relies on `Instant::elapsed`: the time from `earlier` to now.
/// Nothing is assumed of the reading.
#[verifier::external_body]
fn instant_elapsed(earlier: &Instant) -> Duration {
    earlier.elapsed()
}

/// Relies on `Duration::as_nanos`: the total number of whole
/// nanoseconds of the duration. Nothing further is assumed of it.
#[verifier::external_body]
fn duration_as_nanos(d: &Duration) -> u128 {
    d.as_nanos()
}

/// Relies on `Duration::from_nanos`: builds the duration of exactly
/// `n` whole nanoseconds, a pure function of `n`.
#[verifier::external_body]
fn duration_from_nanos(n: u64) -> (r: Duration)
    ensures
        r == spec_duration_from_nanos(n),
{
    Duration::from_nanos(n)
}

/// Tracks time between frames and total elapsed time.
#[derive(Debug)]
pub struct Time {
    /// When the tracker was created.
    pub start_time: Instant,
    /// Clock reading at the last update, in nanoseconds since
    /// `start_time` (saturated to `u64`).
    pub last_frame_nanos: u64,
    /// Nanoseconds the last update stepped forward (zero whenever the
    /// readings did not advance).
    pub delta_nanos: u64,
    /// Nanoseconds from `start_time` to the last update.
    pub elapsed_nanos: u64,
    /// Number of updates so far.
    pub frame_count: u64,
}

impl Time {
    /// Create a new time tracker, started now.
    pub fn new() -> (t: Time)
        ensures
            t.last_frame_nanos == 0,
            t.delta_nanos == 0,
            t.elapsed_nanos == 0,
            t.frame_count == 0,
    {
        Time {
            start_time: instant_now(),
            last_frame_nanos: 0,
            delta_nanos: 0,
            elapsed_nanos: 0,
            frame_count: 0,
        }
    }

    /// Update the tracker at the start of a frame: take a fresh clock
    /// reading, record the step from the previous reading, and count
    /// the frame.
    pub fn update(&mut self)
        requires
            old(self).frame_count < u64::MAX,
        ensures
            final(self).frame_count == old(self).frame_count + 1,
            final(self).elapsed_nanos == final(self).last_frame_nanos,
            final(self).delta_nanos == if final(self).last_frame_nanos >= old(
                self,
            ).last_frame_nanos {
                (final(self).last_frame_nanos - old(self).last_frame_nanos) as u64
            } else {
                0u64
            },
            final(self).start_time == old(self).start_time,
    {
        let d = instant_elapsed(&self.start_time);
        let n128: u128 = duration_as_nanos(&d);
        let now_nanos: u64 = if n128 > u64::MAX as u128 {
            u64::MAX
        } else {
            n128 as u64
        };
        self.delta_nanos = if now_nanos >= self.last_frame_nanos {
            now_nanos - self.last_frame_nanos
        } else {
            0
        };
        self.last_frame_nanos = now_nanos;
        self.elapsed_nanos = now_nanos;
        self.frame_count = self.frame_count + 1;
    }

    /// The duration of the last frame step.
    pub fn delta(&self) -> (d: Duration)
        ensures
            d == spec_duration_from_nanos(self.delta_nanos),
    {
        duration_from_nanos(self.delta_nanos)
    }

    /// The total time from creation to the last update.
    pub fn elapsed(&self) -> (d: Duration)
        ensures
            d == spec_duration_from_nanos(self.elapsed_nanos),
    {
        duration_from_nanos(self.elapsed_nanos)
    }

    /// The number of updates so far.
    pub fn frame_count(&self) -> (n: u64)
        ensures
            n == self.frame_count,
    {
        self.frame_count
    }
}

impl Default for Time {
    /// A fresh tracker, as [`Time::new`] builds it.
    fn default() -> (t: Time)
        ensures
            t.last_frame_nanos == 0,
            t.delta_nanos == 0,
            t.elapsed_nanos == 0,
            t.frame_count == 0,
    {
        Time::new()
    }
}

} // verus!
