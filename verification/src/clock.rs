//! The monotonic clock that decides when a completed lookup is refreshed.

use vstd::prelude::*;

verus! {

/// A moment of the monotonic clock of the standard library.
#[verifier::external_type_specification]
#[verifier::external_body]
pub struct ExInstant(std::time::Instant);

/// Returns the current moment (`std::time::Instant::now`). Nothing is
/// promised of the moment that is read.
#[verifier::external_body]
pub(crate) fn now() -> (moment: std::time::Instant) {
    std::time::Instant::now()
}

/// Returns the time passed since a moment (`std::time::Instant::elapsed`).
/// It depends on the clock, so nothing is promised of it.
#[verifier::external_body]
pub(crate) fn elapsed_since(moment: &std::time::Instant) -> (elapsed: std::time::Duration) {
    moment.elapsed()
}

/// Returns the whole seconds of a duration (`std::time::Duration::as_secs`).
/// Durations are opaque here, so nothing is promised of the result.
#[verifier::external_body]
pub(crate) fn whole_seconds(duration: &std::time::Duration) -> (seconds: u64) {
    duration.as_secs()
}

/// Returns the whole seconds that have passed since a moment. It depends
/// on the clock, so nothing is promised of it.
pub(crate) fn elapsed_whole_seconds(moment: &std::time::Instant) -> (seconds: u64) {
    let passed = elapsed_since(moment);
    whole_seconds(&passed)
}

} // verus!
