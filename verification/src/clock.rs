//! Clock readings for the runner: a wall-clock timestamp taken when an
//! invocation starts, and a monotonic reading pair that brackets it.
//! Nothing is assumed of the values either clock hands back.

use vstd::prelude::*;

verus! {

#[verifier::external_type_specification]
#[verifier::external_body]
pub struct ExInstant(std::time::Instant);

/// Relies on `chrono::Utc::now`: the current wall-clock instant, handed
/// back as chrono's milliseconds-since-epoch timestamp
/// (`DateTime::timestamp_millis`).  Nothing is assumed of the value.
/// `Utc::now` aborts when the system clock reads before the epoch.
#[verifier::external_body]
pub fn wall_clock_millis() -> i64 {
    chrono::Utc::now().timestamp_millis()
}

/// Relies on `std::time::Instant::now`: an opaque monotonic clock reading.
#[verifier::external_body]
pub fn monotonic_now() -> std::time::Instant {
    std::time::Instant::now()
}

/// Relies on `std::time::Instant::elapsed`: the monotonic time since
/// `start`, handed back as its `Duration::as_nanos` count.  Nothing is
/// assumed of the value; `elapsed` saturates and does not panic.
#[verifier::external_body]
pub fn elapsed_nanos(start: &std::time::Instant) -> u128 {
    start.elapsed().as_nanos()
}

} // verus!
