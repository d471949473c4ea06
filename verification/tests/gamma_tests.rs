use colorwarm::gamma::{
    bound, estimate_from_ramp, estimate_outputs, synthesize_ramps, Correction, TempStatus,
    BRIGHTNESS_FULL, TEMPERATURE_NORM, TEMPERATURE_ZERO,
};

fn status(temp: i64, brightness: i64) -> TempStatus {
    TempStatus { temp, brightness }
}

#[test]
fn bound_resets_nonpositive_temperature_and_lowers_brightness() {
    let (fixed, warnings) = bound(status(-5, 15000));
    assert_eq!(fixed, status(TEMPERATURE_NORM, BRIGHTNESS_FULL));
    assert_eq!(
        warnings,
        vec![Correction::TemperatureReset, Correction::BrightnessLowered]
    );
}

#[test]
fn bound_raises_low_positive_temperature_and_negative_brightness() {
    let (fixed, warnings) = bound(status(100, -2000));
    assert_eq!(fixed, status(TEMPERATURE_ZERO, 0));
    assert_eq!(
        warnings,
        vec![Correction::TemperatureRaised, Correction::BrightnessRaised]
    );
}

#[test]
fn bound_keeps_displayable_status_untouched() {
    let (fixed, warnings) = bound(status(5000, 7000));
    assert_eq!(fixed, status(5000, 7000));
    assert!(warnings.is_empty());
}

#[test]
fn bound_zero_temperature_resets_to_neutral() {
    let (fixed, warnings) = bound(status(0, 5000));
    assert_eq!(fixed, status(TEMPERATURE_NORM, 5000));
    assert_eq!(warnings, vec![Correction::TemperatureReset]);
}

#[test]
fn neutral_ramp_has_known_levels() {
    let ramp = synthesize_ramps(status(6500, BRIGHTNESS_FULL), 1024);
    assert_eq!(ramp.red.len(), 1024);
    assert_eq!(ramp.red[0], 0);
    assert_eq!(ramp.red[1], 64);
    assert_eq!(ramp.red[512], 32768);
    assert_eq!(ramp.red[1023], 65471);
    assert_eq!(ramp.red, ramp.green);
    assert_eq!(ramp.red, ramp.blue);
}

#[test]
fn warm_ramp_peaks_match_the_fit() {
    let ramp = synthesize_ramps(status(4500, BRIGHTNESS_FULL), 1024);
    assert_eq!(ramp.red[1023], 65471);
    assert_eq!(ramp.green[1023], 57556);
    assert_eq!(ramp.blue[1023], 48273);
}

#[test]
fn ramps_are_monotone_in_the_index() {
    for &temp in &[1000i64, 4500, 6500, 9000] {
        for &size in &[1u16, 256] {
            let ramp = synthesize_ramps(status(temp, BRIGHTNESS_FULL), size);
            for ch in [&ramp.red, &ramp.green, &ramp.blue] {
                assert_eq!(ch.len(), size as usize);
                for i in 1..ch.len() {
                    assert!(ch[i - 1] <= ch[i], "temp {temp} size {size} index {i}");
                }
            }
        }
    }
}

#[test]
fn brightness_is_clamped_before_synthesis() {
    let full = synthesize_ramps(status(6500, BRIGHTNESS_FULL), 256);
    let over = synthesize_ramps(status(6500, 15000), 256);
    assert_eq!(full.red, over.red);
    let dark = synthesize_ramps(status(6500, -3), 256);
    assert!(dark.red.iter().all(|&v| v == 0));
}

#[test]
fn floor_temperature_keeps_only_red() {
    let ramp = synthesize_ramps(status(700, BRIGHTNESS_FULL), 512);
    assert_eq!(ramp.red[511], 65407);
    assert!(ramp.green.iter().all(|&v| v == 0));
    assert!(ramp.blue.iter().all(|&v| v == 0));
}

#[test]
fn estimate_recovers_exact_values_at_sample_points() {
    assert_eq!(
        estimate_from_ramp(65471, 57556, 48273, 1),
        status(4500, BRIGHTNESS_FULL)
    );
    assert_eq!(
        estimate_from_ramp(65471, 37478, 4647, 1),
        status(2000, BRIGHTNESS_FULL)
    );
    assert_eq!(
        estimate_from_ramp(56843, 59838, 65471, 1),
        status(8000, BRIGHTNESS_FULL)
    );
    assert_eq!(
        estimate_from_ramp(65471, 65471, 65471, 1),
        status(6500, BRIGHTNESS_FULL)
    );
}

#[test]
fn estimate_recovers_half_brightness() {
    assert_eq!(estimate_from_ramp(32736, 32736, 32736, 1), status(6500, 5000));
}

#[test]
fn estimate_handles_black_and_empty_readings() {
    assert_eq!(estimate_from_ramp(0, 0, 0, 1), status(0, 0));
    assert_eq!(estimate_from_ramp(0, 0, 0, 0), status(0, 0));
}

#[test]
fn estimate_with_green_and_blue_dark_yields_the_floor() {
    assert_eq!(
        estimate_from_ramp(65535, 0, 0, 1),
        status(TEMPERATURE_ZERO, BRIGHTNESS_FULL)
    );
}

#[test]
fn estimate_uses_green_fit_when_blue_is_dark() {
    assert_eq!(
        estimate_from_ramp(65535, 30000, 0, 1),
        status(1570, BRIGHTNESS_FULL)
    );
}

#[test]
fn estimate_averages_over_aggregated_outputs() {
    let one = estimate_outputs(&vec![(65471, 57556, 48273)]);
    let two = estimate_outputs(&vec![(65471, 57556, 48273), (65471, 57556, 48273)]);
    assert_eq!(one, status(4500, BRIGHTNESS_FULL));
    assert_eq!(two, status(4500, BRIGHTNESS_FULL));
    assert_eq!(estimate_outputs(&vec![]), status(0, 0));
}

#[test]
fn round_trip_recovers_temperature_within_five_kelvin() {
    for size in [256u16, 1024] {
        let mut temps: Vec<i64> = (1000..=10000).step_by(100).collect();
        temps.extend_from_slice(&[2000, 4500, 8000, 9999]);
        for k in temps {
            let ramp = synthesize_ramps(status(k, BRIGHTNESS_FULL), size);
            let peak = (
                ramp.red[size as usize - 1],
                ramp.green[size as usize - 1],
                ramp.blue[size as usize - 1],
            );
            let est = estimate_outputs(&vec![peak]);
            assert!(
                (est.temp - k).abs() <= 5,
                "round trip at {k} (size {size}) came back as {}",
                est.temp
            );
        }
    }
}
