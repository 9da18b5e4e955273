//! The collector's two outside readings: fresh identifier text and the
//! wall clock.  Each call is behind a trusted contract.

use vstd::prelude::*;

verus! {

/// Relies on `ulid::Ulid::new` and `ulid::Ulid::to_string`: the canonical
/// text encoding of a ULID is always exactly 26 characters.  Which identifier
/// comes back depends on the clock and on randomness, so nothing more is
/// assumed.
#[verifier::external_body]
pub(crate) fn ulid_text() -> (r: String)
    ensures
        r@.len() == 26,
{
    ulid::Ulid::new().to_string()
}

/// Relies on `std::time::SystemTime::now` for the wall-clock reading, with
/// `SystemTime::duration_since` and `Duration::as_micros` converting it to
/// microseconds since the epoch.  Nothing is assumed of the value; a clock
/// before the epoch reads as 0.
#[verifier::external_body]
pub(crate) fn now_micros() -> u64 {
    match std::time::SystemTime::now().duration_since(std::time::SystemTime::UNIX_EPOCH) {
        Ok(d) => d.as_micros() as u64,
        Err(_) => 0,
    }
}

} // verus!
