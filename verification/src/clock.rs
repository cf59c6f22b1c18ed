//! The monotonic clock. Everything here is taken on trust from the standard
//! library: nothing is claimed of the values that the clock hands out, so the
//! estimator is verified for every reading.

use vstd::prelude::*;
use std::time::{Duration, Instant};

verus! {

/// `std::time::Instant`: a reading of the monotonic clock, opaque to the
/// verifier. Two readings can be compared for equality in contracts and
/// nothing else is known of them.
#[verifier::external_type_specification]
#[verifier::external_body]
pub struct ExInstant(std::time::Instant);

/// `Instant::now`: the current reading of the clock. Nothing is claimed of it.
pub assume_specification[ std::time::Instant::now ]() -> (t: Instant);

/// `Instant::elapsed`: the time that has passed since the reading was taken
/// (zero where the clock appears to have gone backwards). Nothing is claimed
/// of it.
pub assume_specification[ std::time::Instant::elapsed ](t: &Instant) -> (d: Duration);

/// `Duration::as_micros`: the whole microseconds in a duration. Nothing is
/// claimed of the number.
pub assume_specification[ core::time::Duration::as_micros ](d: &Duration) -> (m: u128);

/// Whole microseconds that have passed since `since` was read from the clock.
pub fn micros_since(since: Instant) -> (elapsed: u128) {
    let passed = since.elapsed();
    passed.as_micros()
}

} // verus!
