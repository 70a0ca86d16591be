//! The monotonic clock.
use std::time::Instant;
use vstd::prelude::*;

verus! {

/// `std::time::Instant`: a reading of the clock, carried as it is. Nothing
/// inside it is read here.
#[verifier::external_type_specification]
#[verifier::external_body]
pub struct ExInstant(std::time::Instant);

/// `instant::Instant::now`: the clock's reading at the moment of the call.
/// Nothing is claimed of the reading.
#[verifier::external_body]
pub(crate) fn now() -> (reading: Instant) {
    instant::Instant::now()
}

} // verus!
