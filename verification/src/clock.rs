//! The wall clock.

use vstd::prelude::*;

verus! {

/// Seconds since the Unix epoch, as `chrono::Utc::now().timestamp()` gives
/// them. Trusted: the clock is read from the system, so nothing is said of
/// the value but that it is not negative (`Utc::now` does not return for a
/// clock set before the epoch).
#[verifier::external_body]
pub(crate) fn unix_now() -> (r: i64)
    ensures
        r >= 0,
{
    chrono::Utc::now().timestamp()
}

/// The current UTC date and time as text, as `chrono::Utc::now().to_string()`
/// gives it. Trusted: nothing is said of the text.
#[verifier::external_body]
pub(crate) fn utc_now_text() -> (r: String) {
    chrono::Utc::now().to_string()
}

} // verus!
