//! The monotonic clock that the match timer reads.
//!
//! Nothing is claimed about any reading: code that reads the clock is proved
//! for every value that could come back.

use std::time::{Duration, Instant};
use vstd::prelude::*;

verus! {

/// `std::time::Instant`, one reading of the monotonic clock. It is carried
/// through unopened.
#[verifier::external_type_specification]
#[verifier::external_body]
pub struct ExInstant(Instant);

/// `Instant::now` reads the monotonic clock. Nothing is promised of the
/// reading.
pub assume_specification[ Instant::now ]() -> (mark: Instant);

/// `Instant::elapsed` gives the time that has passed since the reading was
/// taken. Nothing is promised of its length.
pub assume_specification[ Instant::elapsed ](mark: &Instant) -> (span: Duration);

/// `Duration::as_millis` gives the whole milliseconds in a span. The span is
/// opaque here, so nothing is promised of the number.
pub assume_specification[ Duration::as_millis ](span: &Duration) -> (millis: u128);

} // verus!
