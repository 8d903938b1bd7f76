//! Classification of a polled temperature into an ordered set of bands.
//!
//! Temperatures are carried as integer hundredths of a degree (centidegrees),
//! so that the band bounds of the reference table are exact: 21 degrees
//! Celsius is 2100 centidegrees. The poller hands the selector either a fresh
//! reading or an explicit unavailable marker; a failed poll never reuses old
//! data and always degrades to the default band.

use vstd::prelude::*;
use vstd::string::*;

verus! {

/// One fresh poll of the external signal: a temperature in centidegrees
/// Celsius, or the explicit mark that this tick's poll failed.
#[derive(Clone, Copy, PartialEq, Eq, Structural, Debug)]
pub enum PollResult {
    Available(i64),
    Unavailable,
}

/// The ordered classification bands of the reference table, coldest first.
#[derive(Clone, Copy, PartialEq, Eq, Structural, Debug)]
pub enum Band {
    /// At or below 0 degrees Celsius.
    Freezing,
    /// Above 0 and below 21 degrees; also the fallback default.
    Mild,
    /// From 21 to 30 degrees, both ends included.
    Warm,
    /// Above 30 degrees.
    Hot,
}

/// Offset between the Kelvin and Celsius scales, in centidegrees.
pub const KELVIN_OFFSET_CENTI: i64 = 27315;

/// Convert a temperature from centidegrees Kelvin to centidegrees Celsius.
pub fn kelvin_to_celsius(kelvin_centi: i64) -> (celsius_centi: i64)
    requires
        kelvin_centi >= 0,
    ensures
        celsius_centi == kelvin_centi - KELVIN_OFFSET_CENTI,
{
    kelvin_centi - KELVIN_OFFSET_CENTI
}

/// The band a temperature (centidegrees Celsius) falls in: the first band of
/// the ordered table whose bounds contain it.
pub open spec fn band_of(t: int) -> Band {
    if t <= 0 {
        Band::Freezing
    } else if t < 2100 {
        Band::Mild
    } else if t <= 3000 {
        Band::Warm
    } else {
        Band::Hot
    }
}

/// What a poll classifies as: its temperature's band when a reading is
/// there, and the default band when the poll failed.
pub open spec fn selected_band(p: PollResult) -> Band {
    match p {
        PollResult::Available(t) => band_of(t as int),
        PollResult::Unavailable => Band::Mild,
    }
}

/// Select the one band for this tick's poll.
pub fn select(p: &PollResult) -> (b: Band)
    ensures
        b == selected_band(*p),
{
    match p {
        PollResult::Available(t) => {
            if *t <= 0 {
                Band::Freezing
            } else if *t < 2100 {
                Band::Mild
            } else if *t <= 3000 {
                Band::Warm
            } else {
                Band::Hot
            }
        },
        PollResult::Unavailable => Band::Mild,
    }
}

/// The beverage named by a band's payload.
pub open spec fn payload_text(b: Band) -> Seq<char> {
    match b {
        Band::Freezing => "hot lava tea or chocolate"@,
        Band::Mild => "tea"@,
        Band::Warm => "iced tea"@,
        Band::Hot => "super frozen tea"@,
    }
}

/// The notification payload of a band.
pub fn payload(b: &Band) -> (s: String)
    ensures
        s@ == payload_text(*b),
{
    match b {
        Band::Freezing => String::from_str("hot lava tea or chocolate"),
        Band::Mild => String::from_str("tea"),
        Band::Warm => String::from_str("iced tea"),
        Band::Hot => String::from_str("super frozen tea"),
    }
}

/// Every temperature lands in exactly one band, and in the band the
/// reference table gives it: at or below zero freezing, up to 21 mild, 21 to
/// 30 warm, above 30 hot (bounds in centidegrees).
pub proof fn lemma_band_coverage(t: int)
    ensures
        (band_of(t) == Band::Freezing) <==> t <= 0,
        (band_of(t) == Band::Mild) <==> 0 < t < 2100,
        (band_of(t) == Band::Warm) <==> 2100 <= t <= 3000,
        (band_of(t) == Band::Hot) <==> t > 3000,
{
}

/// A failed poll classifies as the default band, never as any other.
pub proof fn lemma_unavailable_is_default()
    ensures
        selected_band(PollResult::Unavailable) == Band::Mild,
{
}

/// Classification is pure: two selections from equal polls agree.
pub proof fn lemma_select_pure(p1: PollResult, p2: PollResult)
    requires
        p1 == p2,
    ensures
        selected_band(p1) == selected_band(p2),
{
}

} // verus!
