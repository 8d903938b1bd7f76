//! The tick decision of the announcement scheduler: given the local time,
//! this tick's poll and a random pick, which message (if any) goes out.
//!
//! Three windows are evaluated every tick, each one minute wide: tea time in
//! the afternoon and in the evening, which announce a beverage classified
//! from the polled temperature, and midnight, which announces one of two
//! fixed lines. The windows' hours are pairwise distinct, so at most one
//! message per tick goes out.

use vstd::prelude::*;
use vstd::string::*;

use crate::classify::{selected_band, Band, PollResult};
use crate::schedule::{evaluate, fires, TriggerWindow};
use crate::classify;

verus! {

/// The afternoon tea window: first minute of hour 16.
pub open spec fn afternoon_tea_window() -> TriggerWindow {
    TriggerWindow { hour: 16, minute_upper: 1 }
}

/// The evening tea window: first minute of hour 22.
pub open spec fn evening_tea_window() -> TriggerWindow {
    TriggerWindow { hour: 22, minute_upper: 1 }
}

/// The midnight window: first minute of hour 0.
pub open spec fn midnight_window() -> TriggerWindow {
    TriggerWindow { hour: 0, minute_upper: 1 }
}

/// How many fixed midnight lines there are to pick from.
pub const MIDNIGHT_CHOICE_COUNT: u64 = 2;

/// The tea announcement for a band: its payload framed as a tea call.
pub open spec fn tea_time_text(b: Band) -> Seq<char> {
    "It's "@ + classify::payload_text(b) + " time!"@
}

/// Build the tea announcement for a band.
pub fn tea_time_message(b: &Band) -> (s: String)
    ensures
        s@ == tea_time_text(*b),
{
    let mut s = String::from_str("It's ");
    let beverage = classify::payload(b);
    s.append(beverage.as_str());
    s.append(" time!");
    s
}

/// The midnight line a pick lands on.
pub open spec fn midnight_text(pick: u64) -> Seq<char> {
    if pick == 0 {
        "IL EST MINUIIIIIIIIT ET TOUUUUUUUUUUT VA BIEEEEEEEEEEEN"@
    } else {
        "ON EST AUJOURD'HUI"@
    }
}

/// The midnight announcement for a pick, as drawn by the caller.
pub fn midnight_message(pick: u64) -> (s: String)
    requires
        pick < MIDNIGHT_CHOICE_COUNT,
    ensures
        s@ == midnight_text(pick),
{
    if pick == 0 {
        String::from_str("IL EST MINUIIIIIIIIT ET TOUUUUUUUUUUT VA BIEEEEEEEEEEEN")
    } else {
        String::from_str("ON EST AUJOURD'HUI")
    }
}

/// Decide this tick's announcement: the tea message when a tea window
/// fires, the picked midnight line when the midnight window fires, nothing
/// otherwise.
pub fn tick_message(hour: u8, minute: u8, poll: &PollResult, pick: u64) -> (r: Option<String>)
    requires
        pick < MIDNIGHT_CHOICE_COUNT,
    ensures
        (r is Some) == (fires(afternoon_tea_window(), hour, minute) || fires(
            evening_tea_window(),
            hour,
            minute,
        ) || fires(midnight_window(), hour, minute)),
        fires(afternoon_tea_window(), hour, minute) || fires(evening_tea_window(), hour, minute)
            ==> r->Some_0@ == tea_time_text(selected_band(*poll)),
        fires(midnight_window(), hour, minute) ==> r->Some_0@ == midnight_text(pick),
{
    let afternoon = TriggerWindow::new(16, 1);
    let evening = TriggerWindow::new(22, 1);
    let midnight = TriggerWindow::new(0, 1);
    if evaluate(&afternoon, hour, minute) || evaluate(&evening, hour, minute) {
        let band = classify::select(poll);
        Some(tea_time_message(&band))
    } else if evaluate(&midnight, hour, minute) {
        Some(midnight_message(pick))
    } else {
        None
    }
}

/// Decide the announcement of a tick happening now: read the shifted clock,
/// draw the midnight pick, and decide from this tick's poll. Whatever the
/// clock and the draw returned, any message out is one of the known
/// announcement texts.
pub fn tick_message_now(poll: &PollResult) -> (r: Option<String>)
    ensures
        r is Some ==> r->Some_0@ == tea_time_text(selected_band(*poll)) || exists|pick: u64|
            pick < MIDNIGHT_CHOICE_COUNT && r->Some_0@ == midnight_text(pick),
{
    let (hour, minute) = crate::clock::local_tick_time();
    let pick = crate::rng::pick_index(MIDNIGHT_CHOICE_COUNT);
    tick_message(hour, minute, poll, pick)
}

} // verus!
