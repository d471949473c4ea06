//! The decision logic of the color-temperature engine: which outputs a
//! selector targets, and what status an absolute, relative or toggle
//! request turns into.  The display transport itself stays outside the
//! library; it hands in plain values (peak levels, output counts) and
//! receives plain values (ramps, statuses) back.

use vstd::prelude::*;
use crate::gamma::{
    TempStatus, Correction, TEMPERATURE_NORM, TEMPERATURE_NIGHT, TEMP_MAX, bound, bounded_temp,
    bounded_brightness, correction_seq, displayable,
};

verus! {

/// Which screen and which CRTC an operation targets; `None` means all.
#[derive(Clone, Copy, Debug, PartialEq, Eq, Structural)]
pub struct OutputSelector {
    pub screen: Option<usize>,
    pub crtc: Option<usize>,
}

/// The error conditions the engine distinguishes.
#[derive(Clone, Copy, Debug, PartialEq, Eq, Structural)]
pub enum EngineError {
    /// The display transport cannot be reached at all.
    PortUnavailable,
    /// An explicit screen or CRTC index is outside what the display
    /// connection reports.
    InvalidSelector,
    /// Delta mode was requested without both deltas.
    IncompleteDeltaSpec,
}

impl EngineError {
    /// A fixed diagnostic line for each error.
    pub fn message(&self) -> (s: String)
        ensures
            *self is PortUnavailable ==> s@ == "cannot reach the display"@,
            *self is InvalidSelector ==> s@ == "invalid screen or CRTC index"@,
            *self is IncompleteDeltaSpec ==> s@
                == "temperature and brightness delta must both be specified"@,
    {
        match self {
            EngineError::PortUnavailable => String::from_str("cannot reach the display"),
            EngineError::InvalidSelector => String::from_str("invalid screen or CRTC index"),
            EngineError::IncompleteDeltaSpec => String::from_str(
                "temperature and brightness delta must both be specified",
            ),
        }
    }
}

/// Resolves an optional zero-based index against a reported count:
/// `None` selects every index below `count`, an in-range index selects
/// itself alone, and an out-of-range index is rejected before anything
/// is touched.
pub fn resolve_outputs(selected: Option<usize>, count: usize) -> (r: Result<
    Vec<usize>,
    EngineError,
>)
    ensures
        match r {
            Ok(v) => match selected {
                Some(s) => s < count && v@ == seq![s],
                None => v@.len() == count && (forall|k: int| 0 <= k < count ==> v@[k] == k),
            },
            Err(e) => e == EngineError::InvalidSelector && (selected matches Some(s) && s
                >= count),
        },
{
    match selected {
        Some(s) => {
            if s < count {
                let mut v: Vec<usize> = Vec::new();
                v.push(s);
                proof {
                    assert(v@ =~= seq![s]);
                }
                Ok(v)
            } else {
                Err(EngineError::InvalidSelector)
            }
        },
        None => {
            let mut v: Vec<usize> = Vec::new();
            let mut i: usize = 0;
            while i < count
                invariant
                    i <= count,
                    v@.len() == i,
                    forall|k: int| 0 <= k < i ==> v@[k] == k,
                decreases count - i,
            {
                v.push(i);
                i = i + 1;
            }
            Ok(v)
        },
    }
}

/// The status a toggle request switches an output to: estimated
/// temperatures within 100 K of neutral or above go to the night value,
/// everything else back to neutral; brightness is kept.
pub open spec fn spec_toggle(cur: TempStatus) -> TempStatus {
    if cur.temp >= TEMPERATURE_NORM - 100 {
        TempStatus { temp: TEMPERATURE_NIGHT, brightness: cur.brightness }
    } else {
        TempStatus { temp: TEMPERATURE_NORM, brightness: cur.brightness }
    }
}

/// Computes the toggle of a currently estimated status.
pub fn toggle_target(cur: TempStatus) -> (r: TempStatus)
    ensures
        r == spec_toggle(cur),
        r.brightness == cur.brightness,
        r.temp == TEMPERATURE_NIGHT || r.temp == TEMPERATURE_NORM,
{
    if cur.temp >= TEMPERATURE_NORM - 100 {
        TempStatus { temp: TEMPERATURE_NIGHT, brightness: cur.brightness }
    } else {
        TempStatus { temp: TEMPERATURE_NORM, brightness: cur.brightness }
    }
}

/// Checks that a delta request carries both deltas; a missing one is a
/// configuration error and nothing is applied.
pub fn delta_request(temp_delta: Option<i64>, brightness_delta: Option<i64>) -> (r: Result<
    (i64, i64),
    EngineError,
>)
    ensures
        match r {
            Ok(d) => temp_delta == Some(d.0) && brightness_delta == Some(d.1),
            Err(e) => e == EngineError::IncompleteDeltaSpec && (temp_delta is None
                || brightness_delta is None),
        },
{
    match (temp_delta, brightness_delta) {
        (Some(t), Some(b)) => Ok((t, b)),
        _ => Err(EngineError::IncompleteDeltaSpec),
    }
}

/// Applies a relative request to one output's own current estimate:
/// the deltas are added and the sum is corrected by [`bound`].
pub fn delta_target(cur: TempStatus, temp_delta: i64, brightness_delta: i64) -> (r: (
    TempStatus,
    Vec<Correction>,
))
    requires
        0 <= cur.temp <= 1_700_000_000,
        0 <= cur.brightness <= 10_000,
        -2_300_000_000 <= temp_delta <= 2_300_000_000,
        -1_000_000_000 <= brightness_delta <= 1_000_000_000,
    ensures
        r.0.temp == bounded_temp(cur.temp + temp_delta),
        r.0.brightness == bounded_brightness(cur.brightness + brightness_delta),
        r.1@ == correction_seq(
            TempStatus {
                temp: (cur.temp + temp_delta) as i64,
                brightness: (cur.brightness + brightness_delta) as i64,
            },
        ),
        displayable(r.0),
        r.0.temp <= TEMP_MAX,
{
    let shifted = TempStatus {
        temp: cur.temp + temp_delta,
        brightness: cur.brightness + brightness_delta,
    };
    bound(shifted)
}

/// Resolves an absolute request: a temperature of zero means "reset to
/// neutral" and is passed through untouched (brightness included);
/// anything else is corrected by [`bound`].
pub fn absolute_target(temp_arg: i64, brightness_arg: i64) -> (r: (TempStatus, Vec<Correction>))
    requires
        -4_000_000_000 <= temp_arg <= TEMP_MAX,
    ensures
        temp_arg == 0 ==> r.0 == (TempStatus {
            temp: TEMPERATURE_NORM,
            brightness: brightness_arg,
        }) && r.1@ == Seq::<Correction>::empty(),
        temp_arg != 0 ==> {
            &&& r.0.temp == bounded_temp(temp_arg as int)
            &&& r.0.brightness == bounded_brightness(brightness_arg as int)
            &&& r.1@ == correction_seq(TempStatus { temp: temp_arg, brightness: brightness_arg })
            &&& displayable(r.0)
        },
        r.0.temp <= TEMP_MAX,
{
    if temp_arg == 0 {
        (TempStatus { temp: TEMPERATURE_NORM, brightness: brightness_arg }, Vec::new())
    } else {
        bound(TempStatus { temp: temp_arg, brightness: brightness_arg })
    }
}

} // verus!
