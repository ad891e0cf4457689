//! Wall-clock access for the sync-handshake deadline.
//!
//! Time depends on the machine, so nothing is promised of these values
//! beyond their types; the session layer uses them only to bound its retry
//! loop, never in a proof.

use vstd::prelude::*;

verus! {

/// `std::time::Instant`, a monotonic clock reading, held opaquely.
#[verifier::external_type_specification]
#[verifier::external_body]
pub struct ExInstant(std::time::Instant);

/// Relies on `std::time::Instant::now`: a reading of the monotonic clock.
#[verifier::external_body]
pub fn monotonic_now() -> (r: std::time::Instant) {
    std::time::Instant::now()
}

/// Relies on `std::time::Instant::elapsed`: the milliseconds since `start`
/// was read, saturated into 64 bits.
#[verifier::external_body]
pub fn millis_since(start: &std::time::Instant) -> (r: u64) {
    let millis = start.elapsed().as_millis();
    if millis > u64::MAX as u128 {
        u64::MAX
    } else {
        millis as u64
    }
}

} // verus!
