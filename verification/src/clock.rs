//! Wall-clock time, in whole seconds since the Unix epoch.

use vstd::prelude::*;

verus! {

/// Calls `chrono::Utc::now().timestamp()`. Nothing is promised of the
/// result: callers are proved for every reading of the clock.
#[verifier::external_body]
pub(crate) fn unix_now() -> i64 {
    chrono::Utc::now().timestamp()
}

/// The instant `seconds` after `instant`, held at the ends of the range
/// where the sum would leave it.
pub open spec fn later(instant: i64, seconds: i64) -> i64 {
    if instant + seconds > i64::MAX {
        i64::MAX
    } else if instant + seconds < i64::MIN {
        i64::MIN
    } else {
        (instant + seconds) as i64
    }
}

/// Adds a number of seconds to an instant, saturating at the ends of the
/// range.
pub fn add_seconds(instant: i64, seconds: i64) -> (sum: i64)
    ensures
        sum == later(instant, seconds),
{
    match instant.checked_add(seconds) {
        Some(sum) => sum,
        None => if seconds > 0 {
            i64::MAX
        } else {
            i64::MIN
        },
    }
}

/// Reads the clock.
pub fn now() -> i64 {
    unix_now()
}

} // verus!
