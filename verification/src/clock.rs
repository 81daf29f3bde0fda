//! The clock that unset times are measured from.

use vstd::prelude::*;

verus! {

/// The number of milliseconds in a day.
pub const DAY_MILLIS: i64 = 86_400_000;

/// Reads the clock: `Utc::now` of chrono, then `timestamp_millis` of what it
/// returns. `Utc::now` gives no time before the Unix epoch, so the number of
/// milliseconds is never negative; nothing else is claimed of it.
#[verifier::external_body]
pub(crate) fn now_millis() -> (millis: i64)
    ensures
        millis >= 0,
{
    chrono::Utc::now().timestamp_millis()
}

} // verus!
