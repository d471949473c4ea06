use colorwarm::engine::{
    absolute_target, delta_request, delta_target, resolve_outputs, toggle_target, EngineError,
    OutputSelector,
};
use colorwarm::gamma::{Correction, TempStatus};

fn status(temp: i64, brightness: i64) -> TempStatus {
    TempStatus { temp, brightness }
}

#[test]
fn absent_index_selects_every_output() {
    assert_eq!(resolve_outputs(None, 3), Ok(vec![0, 1, 2]));
    assert_eq!(resolve_outputs(None, 0), Ok(vec![]));
}

#[test]
fn explicit_index_selects_itself_alone() {
    assert_eq!(resolve_outputs(Some(1), 3), Ok(vec![1]));
    assert_eq!(resolve_outputs(Some(0), 1), Ok(vec![0]));
}

#[test]
fn out_of_range_index_is_rejected_before_any_write() {
    // A stub port that only counts writes: the selector is rejected
    // first, so the port must never be touched.
    let mut writes = 0usize;
    let selector = OutputSelector { screen: Some(3), crtc: None };
    match resolve_outputs(selector.screen, 3) {
        Ok(screens) => {
            for _ in screens {
                writes += 1;
            }
        }
        Err(e) => assert_eq!(e, EngineError::InvalidSelector),
    }
    assert_eq!(writes, 0);
    assert_eq!(resolve_outputs(Some(7), 2), Err(EngineError::InvalidSelector));
}

#[test]
fn toggle_switches_near_neutral_to_night_and_back() {
    assert_eq!(toggle_target(status(6500, 8000)), status(4500, 8000));
    // 6400 is exactly 100 K under neutral and still counts as "within
    // 100 K of neutral", so it toggles to night.
    assert_eq!(toggle_target(status(6400, 500)), status(4500, 500));
    assert_eq!(toggle_target(status(6399, 500)), status(6500, 500));
    assert_eq!(toggle_target(status(2000, 10000)), status(6500, 10000));
}

#[test]
fn delta_mode_needs_both_deltas() {
    assert_eq!(delta_request(Some(500), Some(-100)), Ok((500, -100)));
    assert_eq!(
        delta_request(Some(500), None),
        Err(EngineError::IncompleteDeltaSpec)
    );
    assert_eq!(
        delta_request(None, Some(-100)),
        Err(EngineError::IncompleteDeltaSpec)
    );
    assert_eq!(delta_request(None, None), Err(EngineError::IncompleteDeltaSpec));
}

#[test]
fn deltas_apply_to_the_outputs_own_state() {
    let (next, warnings) = delta_target(status(6500, 10000), -2000, -1000);
    assert_eq!(next, status(4500, 9000));
    assert!(warnings.is_empty());
}

#[test]
fn deltas_are_corrected_after_the_shift() {
    let (next, warnings) = delta_target(status(1000, 5000), -500, 0);
    assert_eq!(next, status(700, 5000));
    assert_eq!(warnings, vec![Correction::TemperatureRaised]);

    let (next, warnings) = delta_target(status(500, 9000), -1000, 20000);
    assert_eq!(next, status(6500, 10000));
    assert_eq!(
        warnings,
        vec![Correction::TemperatureReset, Correction::BrightnessLowered]
    );
}

#[test]
fn absolute_zero_resets_to_neutral_without_bounding() {
    let (next, warnings) = absolute_target(0, 15000);
    assert_eq!(next, status(6500, 15000));
    assert!(warnings.is_empty());
}

#[test]
fn absolute_requests_are_bounded() {
    let (next, warnings) = absolute_target(3000, 5000);
    assert_eq!(next, status(3000, 5000));
    assert!(warnings.is_empty());

    let (next, warnings) = absolute_target(-5, 15000);
    assert_eq!(next, status(6500, 10000));
    assert_eq!(
        warnings,
        vec![Correction::TemperatureReset, Correction::BrightnessLowered]
    );

    let (next, warnings) = absolute_target(100, -1);
    assert_eq!(next, status(700, 0));
    assert_eq!(
        warnings,
        vec![Correction::TemperatureRaised, Correction::BrightnessRaised]
    );
}

#[test]
fn errors_carry_fixed_messages() {
    assert_eq!(EngineError::PortUnavailable.message(), "cannot reach the display");
    assert_eq!(
        EngineError::InvalidSelector.message(),
        "invalid screen or CRTC index"
    );
    assert_eq!(
        EngineError::IncompleteDeltaSpec.message(),
        "temperature and brightness delta must both be specified"
    );
}
