//! The wall clock, in Unix seconds.

use vstd::prelude::*;

verus! {

/// The Unix timestamp of the last second that `chrono` can represent
/// (the end of year 262142).
pub const MAX_TIMESTAMP: i64 = 8210266876799i64;

/// Seconds in one week.
pub const ONE_WEEK: i64 = 604800i64;

/// `chrono::Utc::now().timestamp()` (chrono 0.4.45, `src/offset/utc.rs`):
/// the current Unix time in seconds.
/// Which second it is depends on the clock; `Utc::now` fails on a clock
/// before 1970 and yields only times `chrono` can represent, so the value
/// lies between 0 and [`MAX_TIMESTAMP`]. Nothing more is said of it.
#[verifier::external_body]
fn utc_now_timestamp() -> (now: i64)
    ensures
        0 <= now <= MAX_TIMESTAMP,
{
    chrono::Utc::now().timestamp()
}

/// The current Unix time in seconds; which second it is rests on the clock.
pub fn current_timestamp() -> (now: i64)
    ensures
        0 <= now <= MAX_TIMESTAMP,
{
    utc_now_timestamp()
}

} // verus!
