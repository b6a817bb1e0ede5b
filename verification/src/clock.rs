//! The monotonic clock of the standard library, as far as this crate relies
//! on it. None of these declarations is proved: each says what the crate
//! takes for granted of `std::time`.

use std::time::{Duration, Instant};
use vstd::prelude::*;

verus! {

/// A point on the monotonic clock, `std::time::Instant`. Its inside is not
/// visible to proofs: two values can be told equal or not, and nothing more.
#[verifier::external_type_specification]
#[verifier::external_body]
pub struct ExInstant(Instant);

/// `std::time::Instant::now` reads the monotonic clock. Nothing is claimed of
/// the value: it differs from call to call.
pub assume_specification[ Instant::now ]() -> (now: Instant);

/// `std::time::Instant::elapsed` reads the clock and returns the time that
/// has passed since `since`. Nothing is claimed of the value: it grows with
/// the clock.
pub assume_specification[ Instant::elapsed ](since: &Instant) -> (elapsed: Duration);

/// `std::time::Duration::as_secs` returns the whole seconds of a duration.
/// A duration's inside is not visible to proofs, so nothing is claimed of the
/// number.
pub assume_specification[ Duration::as_secs ](duration: &Duration) -> (secs: u64);

} // verus!
