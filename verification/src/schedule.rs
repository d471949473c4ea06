//! The day/night scheduler: a fixed monthly sunrise/sunset table,
//! shifted once at startup by a timezone's longitude offset, a smooth
//! calendar interpolation of that table, and the blend that turns a
//! clock time into the Kelvin value to apply.

use vstd::prelude::*;
use crate::gamma::{TEMPERATURE_NORM, TEMPERATURE_NIGHT};
use crate::tz::{get_longitude_offset, spec_longitude_offset};

verus! {

/// Kelvin value substituted when a day window is degenerate
/// (sunrise equal to sunset), instead of dividing by zero.
pub const TEMPERATURE_FALLBACK: i64 = 5500;

/// Sunrise at the 15th of each month, in minutes since local midnight,
/// before any timezone shift.
pub open spec fn base_sunrise(m: int) -> int {
    seq![520int, 477int, 417int, 409int, 354int, 329int, 347int, 391int, 430int, 486int, 479int, 519int][m]
}

/// Sunset at the 15th of each month, in minutes since local midnight,
/// before any timezone shift.
pub open spec fn base_sunset(m: int) -> int {
    seq![
        1025int,
        1076int,
        1126int,
        1237int,
        1284int,
        1316int,
        1308int,
        1261int,
        1195int,
        1129int,
        1014int,
        996int,
    ][m]
}

/// Sunrise/sunset minutes for the 15th of each month (January first),
/// already shifted for a timezone; immutable once constructed.
pub struct MonthlyTimes {
    pub sunrise: [i32; 12],
    pub sunset: [i32; 12],
}

impl MonthlyTimes {
    /// Every month's times are in range and sunrise precedes sunset.
    pub open spec fn wf(self) -> bool {
        forall|m: int|
            0 <= m < 12 ==> -600 <= #[trigger] self.sunrise@[m] && self.sunrise@[m]
                < #[trigger] self.sunset@[m] && self.sunset@[m] <= 1600
    }

    /// Builds the table for a timezone: every base entry shifted by the
    /// timezone's longitude offset.
    pub fn new_for_timezone(timezone: &str) -> (r: MonthlyTimes)
        ensures
            r.wf(),
            forall|m: int|
                0 <= m < 12 ==> #[trigger] r.sunrise@[m] == base_sunrise(m)
                    + spec_longitude_offset(timezone@),
            forall|m: int|
                0 <= m < 12 ==> #[trigger] r.sunset@[m] == base_sunset(m)
                    + spec_longitude_offset(timezone@),
    {
        let off = get_longitude_offset(timezone);
        let r = MonthlyTimes {
            sunrise: [
                520 + off,
                477 + off,
                417 + off,
                409 + off,
                354 + off,
                329 + off,
                347 + off,
                391 + off,
                430 + off,
                486 + off,
                479 + off,
                519 + off,
            ],
            sunset: [
                1025 + off,
                1076 + off,
                1126 + off,
                1237 + off,
                1284 + off,
                1316 + off,
                1308 + off,
                1261 + off,
                1195 + off,
                1129 + off,
                1014 + off,
                996 + off,
            ],
        };
        r
    }
}

/// `x / 30` rounded to the nearest integer, halves away from zero.
pub open spec fn round30(num: int) -> int {
    if num >= 0 {
        (num + 15) / 30
    } else {
        -(((-num) + 15) / 30)
    }
}

/// Linear interpolation between two monthly entries `a` and `b`, `d`
/// thirtieths of a month past `a`, rounded to the nearest minute.
pub open spec fn interp_minutes(a: int, b: int, d: int) -> int {
    round30(a * (30 - d) + b * d)
}

/// Which two table entries a calendar day interpolates between, and how
/// far along (in thirtieths): up to the 15th, between the previous
/// month and this one; after it, between this month and the next.
pub open spec fn window_months_day(month: int, day: int) -> (int, int, int) {
    if day <= 15 {
        (if month == 1 { 11int } else { month - 2 }, month - 1, day + 15)
    } else {
        (month - 1, if month == 12 { 0int } else { month }, day - 15)
    }
}

/// The interpolated (sunrise, sunset) for a calendar date.
pub open spec fn spec_day_window(t: MonthlyTimes, month: int, day: int) -> (int, int) {
    let md = window_months_day(month, day);
    (
        interp_minutes(t.sunrise@[md.0] as int, t.sunrise@[md.1] as int, md.2),
        interp_minutes(t.sunset@[md.0] as int, t.sunset@[md.1] as int, md.2),
    )
}

/// Rounding to the nearest minute keeps an order gap of a full month
/// step: numerators thirty apart land on distinct minutes.
proof fn lemma_round30_strict(x: int, y: int)
    requires
        x + 30 <= y,
    ensures
        round30(x) < round30(y),
{
    if x >= 0 {
        vstd::arithmetic::div_mod::lemma_div_is_ordered(x + 45, y + 15, 30);
    } else if y < 0 {
        vstd::arithmetic::div_mod::lemma_div_is_ordered((-y) + 45, (-x) + 15, 30);
    }
}

/// Interpolating between two months keeps sunrise strictly before
/// sunset whenever both bracketing months have it so.
proof fn lemma_interp_separated(a1: int, a2: int, b1: int, b2: int, d: int)
    requires
        a1 < b1,
        a2 < b2,
        1 <= d <= 30,
    ensures
        interp_minutes(a1, a2, d) < interp_minutes(b1, b2, d),
{
    assert(a1 * (30 - d) + a2 * d + 30 <= b1 * (30 - d) + b2 * d) by (nonlinear_arith)
        requires
            a1 + 1 <= b1,
            a2 + 1 <= b2,
            1 <= d <= 30,
    ;
    lemma_round30_strict(a1 * (30 - d) + a2 * d, b1 * (30 - d) + b2 * d);
}

/// Interpolated sunrise and sunset minutes for a calendar date,
/// smoothing the monthly table so no step occurs at month boundaries.
pub fn get_smoothed_day_times(monthly_times: &MonthlyTimes, month: usize, day: i32) -> (r: (
    i32,
    i32,
))
    requires
        monthly_times.wf(),
        1 <= month <= 12,
        1 <= day <= 31,
    ensures
        (r.0 as int, r.1 as int) == spec_day_window(*monthly_times, month as int, day as int),
        -600 <= r.0 <= 1600,
        -600 <= r.1 <= 1600,
        r.0 < r.1,
{
    let month_index = month - 1;
    let m1: usize = if day <= 15 {
        if month_index == 0 {
            11
        } else {
            month_index - 1
        }
    } else {
        month_index
    };
    let m2: usize = if day <= 15 {
        month_index
    } else {
        (month_index + 1) % 12
    };
    let d: i64 = if day <= 15 {
        (day + 15) as i64
    } else {
        (day - 15) as i64
    };
    let s1 = monthly_times.sunrise[m1] as i64;
    let s2 = monthly_times.sunrise[m2] as i64;
    let e1 = monthly_times.sunset[m1] as i64;
    let e2 = monthly_times.sunset[m2] as i64;
    let sunrise = interp_exec(s1, s2, d);
    let sunset = interp_exec(e1, e2, d);
    proof {
        lemma_interp_separated(s1 as int, s2 as int, e1 as int, e2 as int, d as int);
    }
    (sunrise, sunset)
}

/// One interpolation step on bounded minute values.
fn interp_exec(a: i64, b: i64, d: i64) -> (r: i32)
    requires
        -600 <= a <= 1600,
        -600 <= b <= 1600,
        1 <= d <= 30,
    ensures
        r == interp_minutes(a as int, b as int, d as int),
        -600 <= r <= 1600,
{
    proof {
        assert(-18000 <= a * (30 - d) <= 48000 && -18000 <= b * d <= 48000 && -18000 <= a * (30
            - d) + b * d <= 48000) by (nonlinear_arith)
            requires
                -600 <= a <= 1600,
                -600 <= b <= 1600,
                1 <= d <= 30,
        ;
    }
    let num: i64 = a * (30 - d) + b * d;
    if num >= 0 {
        (((num as u64) + 15) / 30) as i32
    } else {
        -((((-num) as u64 + 15) / 30) as i32)
    }
}

/// The sunrise and sunset for one calendar day, in minutes since local
/// midnight.
#[derive(Clone, Copy, Debug, PartialEq, Eq, Structural)]
pub struct DayWindow {
    pub sunrise: i32,
    pub sunset: i32,
}

/// [`get_smoothed_day_times`] packaged as a [`DayWindow`].
pub fn day_window(monthly_times: &MonthlyTimes, month: usize, day: i32) -> (w: DayWindow)
    requires
        monthly_times.wf(),
        1 <= month <= 12,
        1 <= day <= 31,
    ensures
        (w.sunrise as int, w.sunset as int) == spec_day_window(
            *monthly_times,
            month as int,
            day as int,
        ),
        -600 <= w.sunrise <= 1600,
        -600 <= w.sunset <= 1600,
        w.sunrise < w.sunset,
{
    let (sunrise, sunset) = get_smoothed_day_times(monthly_times, month, day);
    DayWindow { sunrise, sunset }
}

/// The Kelvin value the schedule asks for at a clock time.
///
/// A degenerate window (sunrise equal to sunset) yields the fixed
/// fallback.  Outside the half-open day interval `[sunrise, sunset)`
/// the night value holds.  Inside it, the value ramps linearly from the
/// night value at sunrise up towards the day value at the midpoint and
/// back down, clamped to `[TEMPERATURE_NIGHT, TEMPERATURE_NORM]`.
pub open spec fn spec_target_kelvin(current: int, sunrise: int, sunset: int) -> int {
    if sunrise == sunset {
        TEMPERATURE_FALLBACK as int
    } else if current < sunrise || current >= sunset {
        TEMPERATURE_NIGHT as int
    } else {
        let half = (sunset - sunrise) / 2;
        let mid = sunrise + half;
        let raw = if half == 0 {
            TEMPERATURE_NIGHT as int
        } else if current <= mid {
            TEMPERATURE_NIGHT + (current - sunrise) * 2000 / half
        } else {
            TEMPERATURE_NORM - (current - mid) * 2000 / half
        };
        if raw < TEMPERATURE_NIGHT {
            TEMPERATURE_NIGHT as int
        } else if raw > TEMPERATURE_NORM {
            TEMPERATURE_NORM as int
        } else {
            raw
        }
    }
}

/// Computes the scheduled Kelvin value for a clock time within a day
/// window.
pub fn target_kelvin(current_minutes: i32, window: &DayWindow) -> (r: i64)
    requires
        -600 <= window.sunrise <= 1600,
        -600 <= window.sunset <= 1600,
        -100_000 <= current_minutes <= 100_000,
    ensures
        r == spec_target_kelvin(
            current_minutes as int,
            window.sunrise as int,
            window.sunset as int,
        ),
        TEMPERATURE_NIGHT <= r <= TEMPERATURE_NORM || r == TEMPERATURE_FALLBACK,
        window.sunrise == window.sunset ==> r == TEMPERATURE_FALLBACK,
{
    let current = current_minutes as i64;
    let sunrise = window.sunrise as i64;
    let sunset = window.sunset as i64;
    if sunrise == sunset {
        return TEMPERATURE_FALLBACK;
    }
    if current < sunrise || current >= sunset {
        return TEMPERATURE_NIGHT;
    }
    let half: i64 = (sunset - sunrise) / 2;
    let mid: i64 = sunrise + half;
    let raw: i64 = if half == 0 {
        TEMPERATURE_NIGHT
    } else if current <= mid {
        TEMPERATURE_NIGHT + (((current - sunrise) as u64 * 2000) / (half as u64)) as i64
    } else {
        TEMPERATURE_NORM - (((current - mid) as u64 * 2000) / (half as u64)) as i64
    };
    if raw < TEMPERATURE_NIGHT {
        TEMPERATURE_NIGHT
    } else if raw > TEMPERATURE_NORM {
        TEMPERATURE_NORM
    } else {
        raw
    }
}

/// The schedule's day interval is half-open: one minute before sunrise
/// is still night; at sunrise itself the daytime ramp begins, starting
/// exactly at the night value; at sunset the night value holds again.
pub proof fn lemma_schedule_boundary(sunrise: int, sunset: int)
    requires
        sunrise < sunset,
    ensures
        spec_target_kelvin(sunrise - 1, sunrise, sunset) == TEMPERATURE_NIGHT,
        spec_target_kelvin(sunrise, sunrise, sunset) == TEMPERATURE_NIGHT,
        spec_target_kelvin(sunset, sunrise, sunset) == TEMPERATURE_NIGHT,
{
    let half = (sunset - sunrise) / 2;
    if half > 0 {
        vstd::arithmetic::div_mod::lemma_div_of0(half);
        assert(0 * 2000 == 0);
    }
}

} // verus!
