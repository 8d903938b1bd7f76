//! Recurring daily trigger windows and their evaluation against a tick clock.
//!
//! A trigger window names an hour of the day and a tolerance, in minutes,
//! past the top of that hour. A scheduler polls once per fixed cadence and
//! fires the window's action on every tick whose local time falls inside the
//! window; with a cadence at least as wide as the window and aligned to the
//! hour, that is exactly one tick per calendar day.

use vstd::prelude::*;

verus! {

/// A recurring daily instant: fires while `hour` matches and the minute is
/// strictly below `minute_upper`.
pub struct TriggerWindow {
    /// Hour of the day, 0 to 23.
    pub hour: u8,
    /// Exclusive upper bound on the minute within the hour, 1 to 60.
    pub minute_upper: u8,
}

impl TriggerWindow {
    /// A window is well formed when its hour exists and its minute bound
    /// names a non-empty part of that hour.
    pub open spec fn wf(self) -> bool {
        self.hour < 24 && 1 <= self.minute_upper <= 60
    }

    pub fn new(hour: u8, minute_upper: u8) -> (w: TriggerWindow)
        requires
            hour < 24,
            1 <= minute_upper <= 60,
        ensures
            w.wf(),
            w.hour == hour,
            w.minute_upper == minute_upper,
    {
        TriggerWindow { hour, minute_upper }
    }
}

/// When a window fires: the hour matches and the minute is inside the
/// tolerance.
pub open spec fn fires(w: TriggerWindow, hour: u8, minute: u8) -> bool {
    hour == w.hour && minute < w.minute_upper
}

/// Decide whether the current local time falls inside the window.
pub fn evaluate(w: &TriggerWindow, hour: u8, minute: u8) -> (r: bool)
    ensures
        r == fires(*w, hour, minute),
{
    hour == w.hour && minute < w.minute_upper
}

/// Walk one calendar day of ticks, one every `cadence` minutes from
/// midnight, and count the ticks on which the window fires.
///
/// With the cadence at least as wide as the window and dividing the hour
/// evenly, exactly one tick of the day lands inside the window: the one at
/// the top of the window's hour.
pub fn fires_in_day(w: &TriggerWindow, cadence: u8) -> (count: u32)
    requires
        w.wf(),
        w.minute_upper <= cadence,
        cadence <= 60,
        60int % (cadence as int) == 0,
    ensures
        count == 1,
{
    let mut count: u32 = 0;
    let mut hour: u8 = 0;
    while hour < 24
        invariant
            hour <= 24,
            w.wf(),
            w.minute_upper <= cadence,
            cadence <= 60,
            count == if hour > w.hour { 1u32 } else { 0u32 },
        decreases 24 - hour,
    {
        let mut minute: u8 = 0;
        while minute < 60
            invariant
                w.wf(),
                w.minute_upper <= cadence,
                cadence <= 60,
                minute == 0 || minute >= cadence,
                minute < 60 + cadence,
                count == if hour > w.hour || (hour == w.hour && minute > 0) {
                    1u32
                } else {
                    0u32
                },
            decreases 120 - minute,
        {
            if evaluate(w, hour, minute) {
                count = count + 1;
            }
            minute = minute + cadence;
        }
        hour = hour + 1;
    }
    count
}

} // verus!
