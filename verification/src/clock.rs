//! The system clock.

use vstd::prelude::*;

verus! {

/// Reads the clock with `chrono::Utc::now` and returns `timestamp()`:
/// whole seconds since the Unix epoch. Nothing is promised of the value.
#[verifier::external_body]
pub(crate) fn unix_seconds() -> i64 {
    chrono::Utc::now().timestamp()
}

/// Reads the clock with `chrono::Utc::now` and returns
/// `timestamp_micros()`: microseconds since the Unix epoch. Nothing is
/// promised of the value.
#[verifier::external_body]
pub(crate) fn unix_micros() -> i64 {
    chrono::Utc::now().timestamp_micros()
}

/// A signed count of seconds as the unsigned count that a token carries:
/// a negative count is taken as 0.
pub fn epoch_seconds(raw: i64) -> (now: u64)
    ensures
        now == (if raw < 0 { 0 } else { raw as int }),
{
    if raw < 0 {
        0
    } else {
        raw as u64
    }
}

} // verus!
