//! Readings of the monotonic clock.

use vstd::prelude::*;
use std::time::Instant;

verus! {

/// `std::time::Instant`, a moment on the monotonic clock. The library
/// carries such moments and never looks inside one.
#[verifier::external_type_specification]
#[verifier::external_body]
pub struct ExInstant(Instant);

/// The time that has passed since `since`, in nanoseconds, read with
/// `Instant::elapsed`. Nothing is claimed of the reading: two readings of one
/// instant may differ.
#[verifier::external_body]
pub(crate) fn elapsed_nanos(since: &Instant) -> (nanos: u128) {
    since.elapsed().as_nanos()
}

/// The present moment, read with `Instant::now`.
#[verifier::external_body]
pub(crate) fn now() -> (instant: Instant) {
    Instant::now()
}

} // verus!
