//! The current time, in whole seconds since the Unix epoch.

use vstd::prelude::*;

verus! {

/// The last second that a `chrono::DateTime` can hold (year 262142, Dec 31, 23:59:59).
pub const CLOCK_MAX: i64 = 8_210_266_876_799;

/// Relies on `chrono::Utc::now` and `DateTime::timestamp`. `now` panics for a
/// system clock before the epoch and for one past the last date a `DateTime`
/// holds, so what it returns lies between 0 and `CLOCK_MAX`.
#[verifier::external_body]
pub(crate) fn now_unix_seconds() -> (r: i64)
    ensures
        0 <= r <= CLOCK_MAX,
{
    chrono::Utc::now().timestamp()
}

} // verus!
