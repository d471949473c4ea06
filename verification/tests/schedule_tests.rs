use colorwarm::schedule::{
    day_window, get_smoothed_day_times, target_kelvin, DayWindow, MonthlyTimes,
    TEMPERATURE_FALLBACK,
};

fn zero_offset_times() -> MonthlyTimes {
    // Paris sits on the reference meridian of the table: offset 0.
    MonthlyTimes::new_for_timezone("Europe/Paris")
}

#[test]
fn table_for_zero_offset_matches_the_base_entries() {
    let t = zero_offset_times();
    assert_eq!(t.sunrise[0], 520);
    assert_eq!(t.sunset[0], 1025);
    assert_eq!(t.sunrise[11], 519);
    assert_eq!(t.sunset[11], 996);
}

#[test]
fn table_is_shifted_by_the_longitude_offset() {
    let berlin = MonthlyTimes::new_for_timezone("Europe/Berlin");
    assert_eq!(berlin.sunrise[0], 520 + 15);
    assert_eq!(berlin.sunset[5], 1316 + 15);
    let honolulu = MonthlyTimes::new_for_timezone("Pacific/Honolulu");
    assert_eq!(honolulu.sunrise[5], 329 - 600);
}

#[test]
fn mid_month_window_equals_the_raw_table_entry() {
    let t = zero_offset_times();
    assert_eq!(get_smoothed_day_times(&t, 1, 15), (520, 1025));
    assert_eq!(get_smoothed_day_times(&t, 6, 15), (329, 1316));
}

#[test]
fn january_first_interpolates_from_december() {
    let t = zero_offset_times();
    // Sixteen thirtieths of the way from the December entry to January.
    assert_eq!(get_smoothed_day_times(&t, 1, 1), (520, 1011));
}

#[test]
fn late_month_interpolates_towards_the_next_month() {
    let t = zero_offset_times();
    // December 31 is sixteen thirtieths of the way towards January.
    assert_eq!(get_smoothed_day_times(&t, 12, 31), (520, 1011));
}

#[test]
fn day_window_wraps_the_same_values() {
    let t = zero_offset_times();
    let w = day_window(&t, 1, 15);
    assert_eq!((w.sunrise, w.sunset), (520, 1025));
}

#[test]
fn night_holds_until_the_minute_before_sunrise() {
    let w = DayWindow { sunrise: 520, sunset: 1025 };
    assert_eq!(target_kelvin(519, &w), 4500);
    assert_eq!(target_kelvin(0, &w), 4500);
}

#[test]
fn the_ramp_begins_exactly_at_sunrise() {
    let w = DayWindow { sunrise: 520, sunset: 1025 };
    assert_eq!(target_kelvin(520, &w), 4500);
    assert_eq!(target_kelvin(521, &w), 4507);
}

#[test]
fn the_day_interval_is_half_open() {
    let w = DayWindow { sunrise: 520, sunset: 1025 };
    assert_eq!(target_kelvin(1025, &w), 4500);
    assert_eq!(target_kelvin(1024, &w), 4500);
    assert_eq!(target_kelvin(1023, &w), 4508);
}

#[test]
fn the_midpoint_reaches_the_day_value() {
    let w = DayWindow { sunrise: 520, sunset: 1025 };
    assert_eq!(target_kelvin(772, &w), 6500);
}

#[test]
fn degenerate_window_yields_the_fallback() {
    let w = DayWindow { sunrise: 600, sunset: 600 };
    assert_eq!(target_kelvin(0, &w), TEMPERATURE_FALLBACK);
    assert_eq!(target_kelvin(600, &w), TEMPERATURE_FALLBACK);
    assert_eq!(target_kelvin(1439, &w), TEMPERATURE_FALLBACK);
}

#[test]
fn one_minute_day_never_divides_by_zero() {
    let w = DayWindow { sunrise: 600, sunset: 601 };
    assert_eq!(target_kelvin(600, &w), 4500);
    assert_eq!(target_kelvin(601, &w), 4500);
}

#[test]
fn every_minute_of_a_day_stays_in_range() {
    let t = zero_offset_times();
    for month in 1..=12usize {
        let w = day_window(&t, month, 21);
        for minute in 0..1440 {
            let k = target_kelvin(minute, &w);
            assert!((4500..=6500).contains(&k), "month {month} minute {minute}: {k}");
        }
    }
}
