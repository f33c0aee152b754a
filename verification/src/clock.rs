//! The system clock.

use vstd::prelude::*;

verus! {

/// Seconds since the Unix epoch as `chrono::Utc::now().timestamp()` reads
/// them from the system clock. Nothing is claimed of the value: two calls
/// may differ, and the clock may be set to any time that chrono can
/// represent. The call is taken on trust, and it panics where the clock is
/// set before the Unix epoch or later than chrono's last year.
#[verifier::external_body]
pub(crate) fn unix_now() -> (now: i64) {
    chrono::Utc::now().timestamp()
}

} // verus!
