//! Readings of the monotonic clock. What they return depends on the time
//! at which they run, so nothing is promised of the readings beyond their
//! range; the decisions taken on them are made by functions that take the
//! elapsed time as an argument.

use vstd::prelude::*;
use crate::duration::{Duration, MAX_NANOS};

verus! {

/// `std::time::Instant`, a reading of the monotonic clock, carried through
/// the library without being looked into.
#[verifier::external_type_specification]
#[verifier::external_body]
pub struct ExInstant(std::time::Instant);

/// Calls `std::time::Instant::now`: the current reading of the monotonic
/// clock. Nothing is stated of it.
#[verifier::external_body]
pub(crate) fn now() -> std::time::Instant {
    std::time::Instant::now()
}

/// Calls `std::time::Instant::elapsed` on `start`: the time that has passed
/// since that reading, converted to a `Duration` by its nanosecond count.
/// It depends on the clock, so the only claim is that it lies in the range
/// of `std::time::Duration`, which `as_nanos` never leaves.
#[verifier::external_body]
pub(crate) fn elapsed_since(start: &std::time::Instant) -> (d: Duration)
    ensures
        d@ <= MAX_NANOS,
{
    Duration { nanos: start.elapsed().as_nanos() }
}

} // verus!
