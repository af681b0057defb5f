//! Readings of the monotonic clock.
//!
//! The cache keeps the instant of its own creation and measures every later
//! point in time as a nanosecond count since that origin. A reading depends on
//! the clock, so nothing is promised of the values these functions return; all
//! reasoning about time happens in verified code that takes a reading as an
//! argument.

use std::time::Duration;
use std::time::Instant;
use vstd::prelude::*;

verus! {

#[verifier::external_type_specification]
#[verifier::external_body]
pub struct ExInstant(Instant);

/// Relies on std::time::Instant::now: a fresh reading of the monotonic clock,
/// used only as the origin that later readings are measured against.
#[verifier::external_body]
pub(crate) fn monotonic_now() -> Instant {
    Instant::now()
}

/// Relies on std::time::Instant::elapsed: the span of time between `origin`
/// and a fresh reading of the monotonic clock, never negative.
#[verifier::external_body]
fn elapsed_since(origin: &Instant) -> Duration {
    origin.elapsed()
}

/// Relies on std::time::Duration::as_nanos, converting its result to a `u64`
/// and capping it at `u64::MAX` (a span of roughly 584 years).
#[verifier::external_body]
fn duration_nanos_capped(d: &Duration) -> u64 {
    match u64::try_from(d.as_nanos()) {
        Ok(n) => n,
        Err(_) => u64::MAX,
    }
}

/// Nanoseconds of the monotonic clock since `origin`, capped at `u64::MAX`.
/// The value depends on when the call happens, so callers state what holds of
/// every reading.
pub(crate) fn nanos_since(origin: &Instant) -> u64 {
    let elapsed = elapsed_since(origin);
    duration_nanos_capped(&elapsed)
}

} // verus!
