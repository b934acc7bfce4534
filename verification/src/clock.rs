//! The clock. Everything here belongs to the standard library and is taken
//! on trust. A reading of the clock depends on the moment of the call, so
//! no contract says what it is.

use vstd::prelude::*;
use std::time::Duration;
use std::time::Instant;

verus! {

/// `std::time::Instant`, a reading of the monotonic clock. What it holds is
/// hidden.
#[verifier::external_type_specification]
#[verifier::external_body]
pub struct ExInstant(Instant);

/// `Instant::now`: the present reading of the clock. Nothing is claimed of
/// it.
pub assume_specification[ Instant::now ]() -> (now: Instant);

/// `Instant::elapsed`: the time that has passed since the reading was
/// taken. Nothing is claimed of it.
pub assume_specification[ Instant::elapsed ](start: &Instant) -> (elapsed: Duration);

/// `Duration::as_nanos`: the whole span in nanoseconds. Nothing is claimed
/// of the number.
pub assume_specification[ Duration::as_nanos ](span: &Duration) -> (nanos: u128);

} // verus!
