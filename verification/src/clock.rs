//! The clock the scheduler reads: wall-clock time shifted to the fixed
//! local offset the trigger windows are written in.

use vstd::prelude::*;

verus! {

/// Hours the trigger windows' zone lies ahead of UTC.
pub const LOCAL_OFFSET_HOURS: u8 = 2;

/// Relies on chrono: `Utc::now() + Duration::hours(..)` is a valid instant,
/// and `Timelike::hour` and `Timelike::minute` of a datetime are below 24
/// and 60. Used to read the hour and minute of the shifted wall clock.
#[verifier::external_body]
fn now_hour_minute_shifted(offset_hours: u8) -> (r: (u8, u8))
    requires
        offset_hours < 24,
    ensures
        r.0 < 24,
        r.1 < 60,
{
    let shifted = chrono::Utc::now() + chrono::Duration::hours(offset_hours as i64);
    let hour = chrono::Timelike::hour(&shifted) as u8;
    let minute = chrono::Timelike::minute(&shifted) as u8;
    (hour, minute)
}

/// The local hour and minute a tick evaluates its windows against. Nothing
/// more than their ranges can be promised of a clock reading: the decision
/// functions take the pair as an argument and are verified for every value.
pub fn local_tick_time() -> (r: (u8, u8))
    ensures
        r.0 < 24,
        r.1 < 60,
{
    now_hour_minute_shifted(LOCAL_OFFSET_HOURS)
}

} // verus!
