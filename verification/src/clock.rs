//! The monotonic clock, taken on trust.
//!
//! vstd declares `std::time::Duration` but not `Instant`, and specifies
//! none of the calls the library needs, so they are declared here. A clock reading
//! depends on when it is made, so none of the declarations promises
//! anything about the values returned; every caller must hold for every
//! possible reading.

use std::time::{Duration, Instant};
use vstd::prelude::*;

verus! {

/// Relies on `std::time::Instant` being an opaque point in time.
#[verifier::external_type_specification]
#[verifier::external_body]
pub struct ExInstant(Instant);

/// Relies on `std::time::Instant::now`: a reading of the monotonic
/// clock. Nothing is promised of the value.
pub assume_specification[ Instant::now ]() -> (r: Instant);

/// Relies on `std::time::Instant::elapsed`: the time from this instant
/// to now. Nothing is promised of the value.
pub assume_specification[ Instant::elapsed ](this: &Instant) -> (r: Duration);

/// Relies on `std::time::Duration::as_nanos`: the whole duration in
/// nanoseconds. The duration itself is opaque, so nothing is promised
/// of the value.
pub assume_specification[ Duration::as_nanos ](this: &Duration) -> (r: u128);

} // verus!
