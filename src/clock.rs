//! Wall-clock readings, as nanosecond counts.
use std::time::Instant;
use vstd::prelude::*;

verus! {

#[verifier::external_type_specification]
#[verifier::external_body]
pub struct ExInstant(std::time::Instant);

/// Relies on `Instant::now`: a reading of the monotonic clock. Nothing is
/// known of the value it returns.
#[verifier::external_body]
pub(crate) fn clock_now() -> (r: Instant) {
    Instant::now()
}

/// Relies on `Instant::elapsed`: the time since `start`, handed back whole as
/// nanoseconds (`Duration::as_nanos`). Any count may come back.
#[verifier::external_body]
pub(crate) fn nanos_since(start: &Instant) -> (r: u128) {
    start.elapsed().as_nanos()
}

} // verus!
