//! The monotonic clock the player state is timed against. A player state
//! keeps the instant it was created at, and every time it records is a
//! reading of that clock: nanoseconds since that instant.

use std::time::Instant;
use vstd::prelude::*;

verus! {

#[verifier::external_type_specification]
#[verifier::external_body]
pub struct ExInstant(Instant);

/// Calls `std::time::Instant::now()`. Nothing is promised of the instant.
#[verifier::external_body]
pub(crate) fn instant_now() -> Instant {
    Instant::now()
}

/// Calls `origin.elapsed()` (`Instant::elapsed`, which gives zero rather than
/// a negative duration) and reads it in whole nanoseconds, cut to 64 bits
/// (which wrap only after some 584 years). Nothing is promised of the value:
/// it depends on the moment of the call.
#[verifier::external_body]
pub(crate) fn nanos_since(origin: &Instant) -> u64 {
    origin.elapsed().as_nanos() as u64
}

} // verus!
