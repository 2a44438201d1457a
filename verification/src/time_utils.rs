//! Day and night: which colour a component shows at a given hour.

use vstd::prelude::*;
use crate::style::Color;

verus! {

/// The hour at which the day begins unless configured otherwise.
pub fn default_day_start() -> (hour: u8)
    ensures
        hour == 6,
{
    6
}

/// The hour at which the night begins unless configured otherwise.
pub fn default_night_start() -> (hour: u8)
    ensures
        hour == 18,
{
    18
}

/// It is day from `day_start`, inclusive, to `night_start`, exclusive.
pub open spec fn daytime_at(hour: u32, day_start: u8, night_start: u8) -> bool {
    day_start <= hour && hour < night_start
}

/// Whether `hour` falls in the night: before `day_start` or from
/// `night_start` on.
pub fn is_nighttime(hour: u32, day_start: u8, night_start: u8) -> (night: bool)
    ensures
        night == !daytime_at(hour, day_start, night_start),
{
    hour < day_start as u32 || hour >= night_start as u32
}

/// Whether `hour` falls in the day.
pub fn is_daytime(hour: u32, day_start: u8, night_start: u8) -> (day: bool)
    ensures
        day == daytime_at(hour, day_start, night_start),
{
    hour >= day_start as u32 && hour < night_start as u32
}

/// The colour for `hour`: `day_color` by day, `night_color` by night.
pub open spec fn time_based_color(
    day_color: Color,
    night_color: Color,
    hour: u32,
    day_start: u8,
    night_start: u8,
) -> Color {
    if daytime_at(hour, day_start, night_start) {
        day_color
    } else {
        night_color
    }
}

/// Picks the colour that fits `hour`.
pub fn get_time_based_color(
    day_color: Color,
    night_color: Color,
    hour: u32,
    day_start: u8,
    night_start: u8,
) -> (color: Color)
    ensures
        color == time_based_color(day_color, night_color, hour, day_start, night_start),
{
    if is_daytime(hour, day_start, night_start) {
        day_color
    } else {
        night_color
    }
}

} // verus!
