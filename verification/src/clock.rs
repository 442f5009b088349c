//! The monotonic clock that the cache stamps its entries with and that a
//! caller waiting for a connection measures its wait on.

use std::time::{Duration, Instant};
use vstd::prelude::*;

verus! {

/// `std::time::Instant`: a reading of the monotonic clock, carried as it is.
#[verifier::external_type_specification]
#[verifier::external_body]
pub struct ExInstant(std::time::Instant);

/// A stopwatch started when it is made.
pub struct Clock {
    origin: Instant,
}

/// `Instant::now`: the current reading of the system's monotonic clock.
/// Nothing is claimed of it.
#[verifier::external_body]
fn instant_now() -> (now: Instant) {
    Instant::now()
}

/// `Instant::elapsed`: the time since `origin` was read. Nothing is
/// claimed of it.
#[verifier::external_body]
fn instant_elapsed(origin: &Instant) -> (elapsed: Duration) {
    origin.elapsed()
}

/// `Duration::as_millis`: the whole milliseconds in `duration`. Nothing is
/// claimed of it.
#[verifier::external_body]
fn duration_as_millis(duration: &Duration) -> (ms: u128) {
    duration.as_millis()
}

/// A count of milliseconds as a `u64`: the count itself where it fits,
/// and `u64::MAX` where it does not.
pub open spec fn saturated(ms: u128) -> u64 {
    if ms > u64::MAX {
        u64::MAX
    } else {
        ms as u64
    }
}

/// Brings a count of milliseconds into a `u64`, stopping at `u64::MAX`.
pub fn saturating_millis(ms: u128) -> (res: u64)
    ensures
        res == saturated(ms),
{
    if ms > u64::MAX as u128 {
        u64::MAX
    } else {
        ms as u64
    }
}

impl Clock {
    /// Starts a stopwatch.
    pub fn start() -> (clock: Clock) {
        Clock { origin: instant_now() }
    }

    /// Milliseconds since the stopwatch was started: what the system's
    /// clock says has passed, brought into a `u64` by `saturating_millis`.
    /// The reading is the system's, so nothing is claimed of it.
    pub fn elapsed_ms(&self) -> (ms: u64) {
        let elapsed = instant_elapsed(&self.origin);
        saturating_millis(duration_as_millis(&elapsed))
    }
}

} // verus!
