//! The monotonic clock that paces wheel kinematics.

use std::time::Instant;
use vstd::prelude::*;

verus! {

#[verifier::external_type_specification]
#[verifier::external_body]
pub struct ExInstant(Instant);

/// Relies on `std::time::Instant::now`: a reading of the monotonic clock. Nothing
/// is promised of its value.
#[verifier::external_body]
pub(crate) fn clock_now() -> (r: Instant) {
    Instant::now()
}

/// Relies on `std::time::Instant::duration_since`: the whole microseconds from
/// `earlier` to `later` (zero when `later` is not after `earlier`), capped at
/// `u64::MAX`. Nothing is promised of its value.
#[verifier::external_body]
pub(crate) fn micros_between(earlier: &Instant, later: &Instant) -> (r: u64) {
    u64::try_from(later.duration_since(*earlier).as_micros()).unwrap_or(u64::MAX)
}

} // verus!
