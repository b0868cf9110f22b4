//! The monotonic clock that the automatic variants of the distributor read.
use std::time::Instant;
use vstd::prelude::*;

verus! {

#[verifier::external_type_specification]
#[verifier::external_body]
pub struct ExInstant(Instant);

/// Relies on `Clone` of `std::time::Instant`, a `Copy` type: the clone is the
/// same instant. Used by the derived `Clone` of the distributor.
pub assume_specification[ <Instant as Clone>::clone ](i: &Instant) -> (r: Instant)
    ensures
        r == *i,
;

/// Relies on `std::time::Instant::now`: a reading of the monotonic clock.
#[verifier::external_body]
pub(crate) fn now() -> (r: Instant) {
    Instant::now()
}

/// Relies on `std::time::Instant::elapsed`: the whole microseconds that have
/// passed since `start`. Nothing is known of the value.
#[verifier::external_body]
pub(crate) fn micros_since(start: &Instant) -> (r: u128) {
    start.elapsed().as_micros()
}

} // verus!
