//! Trusted boundary around the monotonic clock. A clock reading depends on
//! when it is made, so nothing is promised of the values; the scheduler's
//! accounting is verified for every reading it could get.

use vstd::prelude::*;

verus! {

#[verifier::external_type_specification]
#[verifier::external_body]
pub struct ExInstant(std::time::Instant);

/// Relies on std::time::Instant::now: a reading of the monotonic clock.
#[verifier::external_body]
pub(crate) fn instant_now() -> (r: std::time::Instant) {
    std::time::Instant::now()
}

/// The nanoseconds from `earlier` to `later`, zero when `later` does not
/// lie after it. Relies on Instant::saturating_duration_since and
/// Duration::as_nanos; a span wider than `u64::MAX` nanoseconds (more than
/// five centuries) is reported as `u64::MAX`.
#[verifier::external_body]
pub(crate) fn nanos_between(earlier: &std::time::Instant, later: &std::time::Instant) -> (r: u64) {
    let span = later.saturating_duration_since(*earlier).as_nanos();
    if span > u64::MAX as u128 {
        u64::MAX
    } else {
        span as u64
    }
}

} // verus!
