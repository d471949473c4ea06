//! The semantic unit exchanged between the scheduler and the engine: a
//! Kelvin temperature together with a brightness, and the policy that
//! keeps both inside the displayable range.
//!
//! Brightness is held in ten-thousandths: `BRIGHTNESS_FULL` (10000)
//! means full brightness, 0 means black.  Temperatures are integer
//! Kelvin.  Keeping both as plain integers lets every rule about them be
//! verified without floating point.

use vstd::prelude::*;
use vstd::arithmetic::div_mod::{
    lemma_multiply_divide_le, lemma_multiply_divide_lt, lemma_div_is_ordered,
};
use crate::fixed::{Q30, ln_fixed, ln_q30, exp_fixed, exp_round};

verus! {

/// Kelvin value at which no color shift is applied.
pub const TEMPERATURE_NORM: i64 = 6500;

/// Kelvin value applied at night by the day/night schedule.
pub const TEMPERATURE_NIGHT: i64 = 4500;

/// Lowest Kelvin value the curve model supports; requests below it
/// (but above zero) are raised to this floor.
pub const TEMPERATURE_ZERO: i64 = 700;

/// Brightness is stored in ten-thousandths of full brightness.
pub const BRIGHTNESS_FULL: i64 = 10000;

/// A Kelvin temperature paired with a brightness in ten-thousandths.
#[derive(Clone, Copy, Debug, PartialEq, Eq, Structural)]
pub struct TempStatus {
    /// Color temperature in Kelvin.
    pub temp: i64,
    /// Brightness in ten-thousandths of full brightness.
    pub brightness: i64,
}

/// One correction applied by [`bound`]; callers may log or ignore them.
#[derive(Clone, Copy, Debug, PartialEq, Eq, Structural)]
pub enum Correction {
    /// The temperature was zero or negative and was reset to
    /// `TEMPERATURE_NORM`.
    TemperatureReset,
    /// The temperature was positive but under `TEMPERATURE_ZERO` and was
    /// raised to that floor.
    TemperatureRaised,
    /// The brightness was negative and was raised to zero.
    BrightnessRaised,
    /// The brightness was over `BRIGHTNESS_FULL` and was lowered to it.
    BrightnessLowered,
}

/// A status whose fields the gamma model can actually display.
pub open spec fn displayable(ts: TempStatus) -> bool {
    &&& TEMPERATURE_ZERO <= ts.temp
    &&& 0 <= ts.brightness <= BRIGHTNESS_FULL
}

/// The temperature that [`bound`] yields: zero and below resets to the
/// neutral default, anything else under the floor is raised to the floor.
pub open spec fn bounded_temp(t: int) -> int {
    if t <= 0 {
        TEMPERATURE_NORM as int
    } else if t < TEMPERATURE_ZERO {
        TEMPERATURE_ZERO as int
    } else {
        t
    }
}

/// The brightness that [`bound`] yields: clamped to
/// `[0, BRIGHTNESS_FULL]`.
pub open spec fn bounded_brightness(b: int) -> int {
    if b < 0 {
        0
    } else if b > BRIGHTNESS_FULL {
        BRIGHTNESS_FULL as int
    } else {
        b
    }
}

/// The exact corrections [`bound`] reports, in order: the temperature
/// correction first, then the brightness correction.
pub open spec fn correction_seq(ts: TempStatus) -> Seq<Correction> {
    let t = if ts.temp <= 0 {
        seq![Correction::TemperatureReset]
    } else if ts.temp < TEMPERATURE_ZERO {
        seq![Correction::TemperatureRaised]
    } else {
        Seq::empty()
    };
    let b = if ts.brightness < 0 {
        seq![Correction::BrightnessRaised]
    } else if ts.brightness > BRIGHTNESS_FULL {
        seq![Correction::BrightnessLowered]
    } else {
        Seq::empty()
    };
    t + b
}

/// Corrects a requested status to a displayable one and reports every
/// correction that was applied.
///
/// The temperature policy is deliberately asymmetric: a value at or
/// below zero is reset to the neutral `TEMPERATURE_NORM`, while a value
/// strictly between zero and `TEMPERATURE_ZERO` is raised to that floor.
/// Brightness is clamped to `[0, BRIGHTNESS_FULL]`.
pub fn bound(ts: TempStatus) -> (r: (TempStatus, Vec<Correction>))
    ensures
        r.0.temp == bounded_temp(ts.temp as int),
        r.0.brightness == bounded_brightness(ts.brightness as int),
        displayable(r.0),
        r.1@ == correction_seq(ts),
        r.1@.len() == 0 <==> (displayable(ts) && r.0 == ts),
{
    let mut corrections: Vec<Correction> = Vec::new();
    let temp: i64 = if ts.temp <= 0 {
        corrections.push(Correction::TemperatureReset);
        TEMPERATURE_NORM
    } else if ts.temp < TEMPERATURE_ZERO {
        corrections.push(Correction::TemperatureRaised);
        TEMPERATURE_ZERO
    } else {
        ts.temp
    };
    let brightness: i64 = if ts.brightness < 0 {
        corrections.push(Correction::BrightnessRaised);
        0
    } else if ts.brightness > BRIGHTNESS_FULL {
        corrections.push(Correction::BrightnessLowered);
        BRIGHTNESS_FULL
    } else {
        ts.brightness
    };
    proof {
        assert(corrections@ =~= correction_seq(ts));
    }
    (TempStatus { temp, brightness }, corrections)
}

// --- The logarithmic curve fit -------------------------------------------
//
// The model maps a Kelvin value to three multiplicative channel factors
// in [0, 1] (held in Q30).  Warmer than neutral, red stays at 1 and
// green/blue follow `k0 + k1 * ln(temp - TEMPERATURE_ZERO)`; cooler than
// neutral, blue stays at 1 and red/green follow a second pair of fits in
// `ln(temp - (TEMPERATURE_NORM - TEMPERATURE_ZERO))`.  The eight
// empirical coefficients encode a blackbody-like RGB response; they are
// exact decimal values held at a scale of 10^14.

/// Scale of the fit coefficients: they are reals times `10^14`.
pub const E14: i128 = 100000000000000;

pub const GAMMA_K0GR_E14: i128 = -147751309139817;

pub const GAMMA_K1GR_E14: i128 = 28590164772055;

pub const GAMMA_K0BR_E14: i128 = -438321650114872;

pub const GAMMA_K1BR_E14: i128 = 62121587694470;

pub const GAMMA_K0RB_E14: i128 = 175390204039018;

pub const GAMMA_K1RB_E14: i128 = -11508056714820;

pub const GAMMA_K0GB_E14: i128 = 149221604915144;

pub const GAMMA_K1GB_E14: i128 = -7513509588921;

/// Sum of the green and blue warm-side slopes, used by the joint fit
/// that estimates a warmer-than-neutral temperature.
pub const K1_WARM_SUM_E14: i128 = GAMMA_K1GR_E14 + GAMMA_K1BR_E14;

/// Negated sum of the warm-side intercepts.
pub const K0_WARM_NEG_E14: i128 = -(GAMMA_K0GR_E14 + GAMMA_K0BR_E14);

/// Sum of the red and green cool-side intercepts.
pub const K0_COOL_SUM_E14: i128 = GAMMA_K0RB_E14 + GAMMA_K0GB_E14;

/// Negated sum of the cool-side slopes (both are negative).
pub const K1_COOL_NEG_E14: i128 = -(GAMMA_K1RB_E14 + GAMMA_K1GB_E14);

/// Luminance normalization divisor, at a scale of `10^3`: a full ramp
/// peaks at this many thousandths of a level when brightness is 1.
pub const BRIGHTNESS_DIV_E3: u64 = 65470988;

/// Highest level a gamma ramp entry can hold.
pub const GAMMA_MULT: u64 = 65535;

/// Largest Kelvin value the curve model accepts.
pub const TEMP_MAX: i64 = 4_000_000_000;

/// One affine fit evaluated at `g` (a Q30 logarithm) and clamped to
/// `[0, Q30]`: the factor `k0 + k1 * g / 2^30`, in Q30.
pub open spec fn factor_q30(k0_e14: int, k1_e14: int, g_q30: int) -> int {
    let num = k0_e14 * Q30 + k1_e14 * g_q30;
    if num <= 0 {
        0
    } else if num / (E14 as int) >= Q30 {
        Q30 as int
    } else {
        num / (E14 as int)
    }
}

/// The (red, green, blue) channel factors for a Kelvin value, in Q30.
pub open spec fn channel_factors(temp: int) -> (int, int, int) {
    if temp < TEMPERATURE_NORM {
        if temp > TEMPERATURE_ZERO {
            let g = ln_fixed((temp - TEMPERATURE_ZERO) as nat);
            (
                Q30 as int,
                factor_q30(GAMMA_K0GR_E14 as int, GAMMA_K1GR_E14 as int, g),
                factor_q30(GAMMA_K0BR_E14 as int, GAMMA_K1BR_E14 as int, g),
            )
        } else {
            (Q30 as int, 0int, 0int)
        }
    } else {
        let g = ln_fixed((temp - (TEMPERATURE_NORM - TEMPERATURE_ZERO)) as nat);
        (
            factor_q30(GAMMA_K0RB_E14 as int, GAMMA_K1RB_E14 as int, g),
            factor_q30(GAMMA_K0GB_E14 as int, GAMMA_K1GB_E14 as int, g),
            Q30 as int,
        )
    }
}

/// Evaluates one affine fit on an already computed Q30 logarithm.
fn apply_fit(k0_e14: i64, k1_e14: i64, g_q30: u64) -> (f: u64)
    requires
        -500_000_000_000_000 <= k0_e14 <= 500_000_000_000_000,
        -500_000_000_000_000 <= k1_e14 <= 500_000_000_000_000,
        g_q30 <= 40_000_000_000,
    ensures
        f == factor_q30(k0_e14 as int, k1_e14 as int, g_q30 as int),
        f <= Q30,
{
    proof {
        assert((k1_e14 as i128) * (g_q30 as i128) <= 20_000_000_000_000_000_000_000_000
            && (k1_e14 as i128) * (g_q30 as i128) >= -20_000_000_000_000_000_000_000_000
            && (k0_e14 as i128) * (Q30 as i128) <= 600_000_000_000_000_000_000_000
            && (k0_e14 as i128) * (Q30 as i128) >= -600_000_000_000_000_000_000_000)
            by (nonlinear_arith)
            requires
                -500_000_000_000_000 <= k1_e14 <= 500_000_000_000_000,
                -500_000_000_000_000 <= k0_e14 <= 500_000_000_000_000,
                0 <= g_q30 <= 40_000_000_000,
                (Q30 as i128) == 1073741824,
        ;
    }
    let num: i128 = (k0_e14 as i128) * (Q30 as i128) + (k1_e14 as i128) * (g_q30 as i128);
    if num <= 0 {
        0
    } else {
        let d: i128 = num / E14;
        if d >= Q30 as i128 {
            Q30
        } else {
            d as u64
        }
    }
}

/// The channel factors for a Kelvin value, in Q30:
/// `(red, green, blue)`, each in `[0, Q30]`.
pub fn synthesize_factors(temp: i64) -> (f: (u64, u64, u64))
    requires
        temp <= TEMP_MAX,
    ensures
        (f.0 as int, f.1 as int, f.2 as int) == channel_factors(temp as int),
        f.0 <= Q30 && f.1 <= Q30 && f.2 <= Q30,
{
    if temp < TEMPERATURE_NORM {
        if temp > TEMPERATURE_ZERO {
            let g = ln_q30((temp - TEMPERATURE_ZERO) as u64);
            let fg = apply_fit(GAMMA_K0GR_E14 as i64, GAMMA_K1GR_E14 as i64, g);
            let fb = apply_fit(GAMMA_K0BR_E14 as i64, GAMMA_K1BR_E14 as i64, g);
            (Q30, fg, fb)
        } else {
            (Q30, 0, 0)
        }
    } else {
        let g = ln_q30((temp - (TEMPERATURE_NORM - TEMPERATURE_ZERO)) as u64);
        let fr = apply_fit(GAMMA_K0RB_E14 as i64, GAMMA_K1RB_E14 as i64, g);
        let fg = apply_fit(GAMMA_K0GB_E14 as i64, GAMMA_K1GB_E14 as i64, g);
        (fr, fg, Q30)
    }
}

// --- Ramp synthesis -------------------------------------------------------

/// One per-output lookup table: three channel sequences of equal length
/// mapping intensity index to output level.  Index 0 is black and the
/// last index is the channel's peak.
pub struct GammaRamp {
    pub red: Vec<u16>,
    pub green: Vec<u16>,
    pub blue: Vec<u16>,
}

impl GammaRamp {
    /// All three channels share one length.
    pub open spec fn wf(self) -> bool {
        self.red@.len() == self.green@.len() && self.green@.len() == self.blue@.len()
    }
}

/// Level `i` of a ramp of `size` entries: the full scale `GAMMA_MULT`,
/// scaled by the brightness `b` (in ten-thousandths), the position
/// `i / size` and the channel factor `f` (in Q30), rounded to the
/// nearest level.
pub open spec fn ramp_entry(b: int, size: int, i: int, f: int) -> int {
    let num = (GAMMA_MULT as int) * b * i * f;
    let den = (BRIGHTNESS_FULL as int) * size * (Q30 as int);
    (num + den / 2) / den
}

/// `ch` is exactly the ramp channel of `size` entries for brightness
/// `b` and factor `f`.
pub open spec fn ramp_channel_ok(ch: Seq<u16>, b: int, size: int, f: int) -> bool {
    &&& ch.len() == size
    &&& forall|i: int| 0 <= i < size ==> ch[i] == ramp_entry(b, size, i, f)
}

/// Ramp entries never decrease along the index, whatever the
/// brightness and factor.
pub proof fn lemma_ramp_entry_monotone(b: int, size: int, i: int, j: int, f: int)
    requires
        0 <= b,
        0 <= f,
        0 < size,
        0 <= i <= j,
    ensures
        ramp_entry(b, size, i, f) <= ramp_entry(b, size, j, f),
{
    let den = (BRIGHTNESS_FULL as int) * size * (Q30 as int);
    assert(10000 * size * 1073741824 > 0) by (nonlinear_arith)
        requires
            0 < size,
    ;
    assert(den == 10000 * size * 1073741824);
    assert(65535 * b * i * f <= 65535 * b * j * f) by (nonlinear_arith)
        requires
            0 <= b,
            0 <= f,
            0 <= i <= j,
    ;
    assert((GAMMA_MULT as int) * b * i * f == 65535 * b * i * f);
    assert((GAMMA_MULT as int) * b * j * f == 65535 * b * j * f);
    lemma_div_is_ordered(
        (GAMMA_MULT as int) * b * i * f + den / 2,
        (GAMMA_MULT as int) * b * j * f + den / 2,
        den,
    );
}

/// Computes one ramp level.
fn ramp_value(b: i64, size: u16, i: u16, f: u64) -> (v: u16)
    requires
        0 <= b <= BRIGHTNESS_FULL,
        f <= Q30,
        (i as int) < (size as int),
    ensures
        v == ramp_entry(b as int, size as int, i as int, f as int),
        v <= GAMMA_MULT,
{
    proof {
        assert((b as u128) * (i as u128) <= 655350000
            && (b as u128) * (i as u128) * (f as u128) <= 703693163590656000000
            && (b as u128) * (i as u128) * (f as u128) * 65535 + (10000 as u128) * (
            size as u128) * (1073741824 as u128) / 2 < 65536 * ((10000 as u128) * (
            size as u128) * (1073741824 as u128)) && (10000 as u128) * (size as u128) * (
            1073741824 as u128) > 0) by (nonlinear_arith)
            requires
                0 <= b <= 10000,
                (f as int) <= 1073741824,
                0 <= (i as int) < (size as int),
                (size as int) <= 65535,
        ;
    }
    let num: u128 = (b as u128) * (i as u128) * (f as u128) * (GAMMA_MULT as u128);
    let den: u128 = (BRIGHTNESS_FULL as u128) * (size as u128) * (Q30 as u128);
    proof {
        assert(den == (10000 as u128) * (size as u128) * (1073741824 as u128));
        assert((num as int) + (den as int) / 2 < 65536 * (den as int));
        lemma_multiply_divide_lt(
            (num as int) + (den as int) / 2,
            den as int,
            65536,
        );
        assert((num as int) == (GAMMA_MULT as int) * (b as int) * (i as int) * (f as int))
            by (nonlinear_arith)
            requires
                num == (b as int) * (i as int) * (f as int) * 65535,
                0 <= b,
                0 <= (i as int),
                0 <= (f as int),
        ;
    }
    let v = (num + den / 2) / den;
    v as u16
}

/// Expands a requested status into a full gamma ramp of `size` entries
/// per channel.
///
/// The brightness is clamped to `[0, BRIGHTNESS_FULL]` first; the
/// temperature selects the channel factors of [`channel_factors`].
/// Every channel is non-decreasing along the index.
pub fn synthesize_ramps(ts: TempStatus, size: u16) -> (r: GammaRamp)
    requires
        ts.temp <= TEMP_MAX,
    ensures
        r.wf(),
        r.red@.len() == size,
        ramp_channel_ok(
            r.red@,
            bounded_brightness(ts.brightness as int),
            size as int,
            channel_factors(ts.temp as int).0,
        ),
        ramp_channel_ok(
            r.green@,
            bounded_brightness(ts.brightness as int),
            size as int,
            channel_factors(ts.temp as int).1,
        ),
        ramp_channel_ok(
            r.blue@,
            bounded_brightness(ts.brightness as int),
            size as int,
            channel_factors(ts.temp as int).2,
        ),
        forall|i: int, j: int|
            #![trigger r.red@[i], r.red@[j]]
            0 <= i <= j < size ==> r.red@[i] <= r.red@[j],
        forall|i: int, j: int|
            #![trigger r.green@[i], r.green@[j]]
            0 <= i <= j < size ==> r.green@[i] <= r.green@[j],
        forall|i: int, j: int|
            #![trigger r.blue@[i], r.blue@[j]]
            0 <= i <= j < size ==> r.blue@[i] <= r.blue@[j],
{
    let b: i64 = if ts.brightness < 0 {
        0
    } else if ts.brightness > BRIGHTNESS_FULL {
        BRIGHTNESS_FULL
    } else {
        ts.brightness
    };
    let f = synthesize_factors(ts.temp);
    let ghost bb = bounded_brightness(ts.brightness as int);
    let mut red: Vec<u16> = Vec::new();
    let mut green: Vec<u16> = Vec::new();
    let mut blue: Vec<u16> = Vec::new();
    let mut i: u16 = 0;
    while i < size
        invariant
            i <= size,
            0 <= b <= BRIGHTNESS_FULL,
            b == bb,
            f.0 <= Q30 && f.1 <= Q30 && f.2 <= Q30,
            (f.0 as int, f.1 as int, f.2 as int) == channel_factors(ts.temp as int),
            red@.len() == i && green@.len() == i && blue@.len() == i,
            forall|k: int| 0 <= k < i ==> red@[k] == ramp_entry(bb, size as int, k, f.0 as int),
            forall|k: int|
                0 <= k < i ==> green@[k] == ramp_entry(bb, size as int, k, f.1 as int),
            forall|k: int| 0 <= k < i ==> blue@[k] == ramp_entry(bb, size as int, k, f.2 as int),
        decreases size - i,
    {
        red.push(ramp_value(b, size, i, f.0));
        green.push(ramp_value(b, size, i, f.1));
        blue.push(ramp_value(b, size, i, f.2));
        i = i + 1;
    }
    let r = GammaRamp { red, green, blue };
    proof {
        assert forall|i: int, j: int|
            #![trigger r.red@[i], r.red@[j]]
            0 <= i <= j < size implies r.red@[i] <= r.red@[j] by {
            lemma_ramp_entry_monotone(bb, size as int, i, j, f.0 as int);
        }
        assert forall|i: int, j: int|
            #![trigger r.green@[i], r.green@[j]]
            0 <= i <= j < size implies r.green@[i] <= r.green@[j] by {
            lemma_ramp_entry_monotone(bb, size as int, i, j, f.1 as int);
        }
        assert forall|i: int, j: int|
            #![trigger r.blue@[i], r.blue@[j]]
            0 <= i <= j < size implies r.blue@[i] <= r.blue@[j] by {
            lemma_ramp_entry_monotone(bb, size as int, i, j, f.2 as int);
        }
    }
    r
}

// --- Temperature estimation ----------------------------------------------
//
// Reading back a display's state inverts the fit: the three aggregated
// channel peaks are normalized by the largest of them, and the branch of
// the curve is chosen from the sign of `blue - red`.  Each branch solves
// its affine fit for the logarithm and exponentiates.

/// The largest of three values (the aggregated peak brightness).
pub open spec fn max3(a: int, b: int, c: int) -> int {
    let m = if a >= b {
        a
    } else {
        b
    };
    if c > m {
        c
    } else {
        m
    }
}

/// The Q30 logarithm recovered by the joint green+blue fit, for a
/// warmer-than-neutral reading (`gd == gb - gr < 0`).
pub open spec fn warm_joint_arg(gg: int, gd: int) -> int {
    ((gg + Q30 + gd) * (E14 as int) + (K0_WARM_NEG_E14 as int) * (Q30 as int)) / (
    K1_WARM_SUM_E14 as int)
}

/// The Q30 logarithm recovered by the green-only fit, used when the
/// blue channel reads zero.
pub open spec fn warm_green_arg(gg: int) -> int {
    (gg * (E14 as int) - (GAMMA_K0GR_E14 as int) * (Q30 as int)) / (GAMMA_K1GR_E14 as int)
}

/// The Q30 logarithm recovered by the joint green+red fit, for a
/// cooler-than-or-neutral reading (`gd >= 0`).
pub open spec fn cool_joint_arg(gg: int, gd: int) -> int {
    ((K0_COOL_SUM_E14 as int) * (Q30 as int) - (gg + Q30 - gd) * (E14 as int)) / (
    K1_COOL_NEG_E14 as int)
}

/// The Kelvin value estimated from channels normalized to `[0, Q30]`.
pub open spec fn estimate_temp(gr: int, gg: int, gb: int) -> int {
    let gd = gb - gr;
    if gd < 0 {
        if gb > 0 {
            exp_fixed(warm_joint_arg(gg, gd) as nat) + TEMPERATURE_ZERO
        } else if gg > 0 {
            exp_fixed(warm_green_arg(gg) as nat) + TEMPERATURE_ZERO
        } else {
            TEMPERATURE_ZERO as int
        }
    } else {
        exp_fixed(cool_joint_arg(gg, gd) as nat) + (TEMPERATURE_NORM - TEMPERATURE_ZERO)
    }
}

/// The full estimate over raw channel peak sums `rs, gs, bs` aggregated
/// from `n` outputs: `(temperature, brightness)`.  With nothing
/// aggregated or all channels at zero both come back as zero.
pub open spec fn estimate_spec(rs: int, gs: int, bs: int, n: int) -> (int, int) {
    let braw = max3(rs, gs, bs);
    if braw <= 0 || n <= 0 {
        (0int, 0int)
    } else {
        let gr = rs * (Q30 as int) / braw;
        let gg = gs * (Q30 as int) / braw;
        let gb = bs * (Q30 as int) / braw;
        let bb0 = braw * 10000000 / (n * (BRIGHTNESS_DIV_E3 as int));
        let bb = if bb0 > BRIGHTNESS_FULL {
            BRIGHTNESS_FULL as int
        } else {
            bb0
        };
        (estimate_temp(gr, gg, gb), bb)
    }
}

/// Reconstructs the approximate Kelvin value and normalized brightness
/// from the peak (last-index) ramp levels of `count` outputs, summed
/// per channel.
///
/// Brightness is the largest channel sum, averaged over the outputs and
/// divided by the luminance normalization, clamped to full scale.  The
/// temperature inverts the channel fits; a reading with green and blue
/// both at zero yields the floor `TEMPERATURE_ZERO`, and an empty or
/// black reading yields temperature zero.
pub fn estimate_from_ramp(red_sum: u64, green_sum: u64, blue_sum: u64, count: usize) -> (r:
    TempStatus)
    requires
        count <= 1_000_000,
        red_sum <= 65535 * count,
        green_sum <= 65535 * count,
        blue_sum <= 65535 * count,
    ensures
        (r.temp as int, r.brightness as int) == estimate_spec(
            red_sum as int,
            green_sum as int,
            blue_sum as int,
            count as int,
        ),
        0 <= r.temp <= 1_700_000_000,
        0 <= r.brightness <= BRIGHTNESS_FULL,
{
    let mut braw: u64 = if red_sum >= green_sum {
        red_sum
    } else {
        green_sum
    };
    if blue_sum > braw {
        braw = blue_sum;
    }
    if braw == 0 || count == 0 {
        return TempStatus { temp: 0, brightness: 0 };
    }
    proof {
        lemma_multiply_divide_le(
            (red_sum as int) * (Q30 as int),
            braw as int,
            Q30 as int,
        );
        lemma_multiply_divide_le(
            (green_sum as int) * (Q30 as int),
            braw as int,
            Q30 as int,
        );
        lemma_multiply_divide_le(
            (blue_sum as int) * (Q30 as int),
            braw as int,
            Q30 as int,
        );
    }
    let gr = ((red_sum as u128) * (Q30 as u128) / (braw as u128)) as u64;
    let gg = ((green_sum as u128) * (Q30 as u128) / (braw as u128)) as u64;
    let gb = ((blue_sum as u128) * (Q30 as u128) / (braw as u128)) as u64;
    proof {
        assert((count as u128) * (BRIGHTNESS_DIV_E3 as u128) >= 65470988)
            by (nonlinear_arith)
            requires
                count >= 1,
                (BRIGHTNESS_DIV_E3 as u128) == 65470988,
        ;
    }
    let bb0 = (braw as u128) * 10000000 / ((count as u128) * (BRIGHTNESS_DIV_E3 as u128));
    let brightness: i64 = if bb0 > BRIGHTNESS_FULL as u128 {
        BRIGHTNESS_FULL
    } else {
        bb0 as i64
    };
    let temp: i64 = invert_fit(gr, gg, gb);
    TempStatus { temp, brightness }
}

/// Inverts the channel fits on peaks normalized to `[0, Q30]`.
fn invert_fit(gr: u64, gg: u64, gb: u64) -> (t: i64)
    requires
        gr <= Q30,
        gg <= Q30,
        gb <= Q30,
    ensures
        t as int == estimate_temp(gr as int, gg as int, gb as int),
        0 <= t <= 1_700_000_000,
{
    if gb < gr {
        if gb > 0 {
            let num: i128 = ((gg as i128) + (Q30 as i128) + (gb as i128) - (gr as i128)) * E14
                + K0_WARM_NEG_E14 * (Q30 as i128);
            proof {
                assert(K0_WARM_NEG_E14 == 586072959254689);
                assert(K1_WARM_SUM_E14 == 90711752466525);
                assert(E14 == 100000000000000);
                assert(0 <= num <= 844362649954018863087616);
                lemma_div_is_ordered(num as int, 844362649954018863087616, 90711752466525);
            }
            let y = (num / K1_WARM_SUM_E14) as u64;
            (exp_round(y) + 700) as i64
        } else if gg > 0 {
            let num: i128 = (gg as i128) * E14 - GAMMA_K0GR_E14 * (Q30 as i128);
            proof {
                assert(GAMMA_K0GR_E14 == -147751309139817);
                assert(GAMMA_K1GR_E14 == 28590164772055);
                assert(E14 == 100000000000000);
                assert(0 <= num <= 266020942574174976606208);
                lemma_div_is_ordered(num as int, 266020942574174976606208, 28590164772055);
            }
            let y = (num / GAMMA_K1GR_E14) as u64;
            (exp_round(y) + 700) as i64
        } else {
            TEMPERATURE_ZERO
        }
    } else {
        let num: i128 = K0_COOL_SUM_E14 * (Q30 as i128) - ((gg as i128) + (Q30 as i128) - ((
        gb as i128) - (gr as i128))) * E14;
        proof {
            assert(K0_COOL_SUM_E14 == 324611808954162);
            assert(K1_COOL_NEG_E14 == 19021566303741);
            assert(E14 == 100000000000000);
            assert(0 <= num <= 348549275838381438271488);
            lemma_div_is_ordered(num as int, 348549275838381438271488, 19021566303741);
        }
        let y = (num / K1_COOL_NEG_E14) as u64;
        (exp_round(y) + 5800) as i64
    }
}

/// Per-channel sums of the peak levels of a set of outputs.
pub open spec fn sum_red(s: Seq<(u16, u16, u16)>) -> int
    decreases s.len(),
{
    if s.len() == 0 {
        0
    } else {
        sum_red(s.drop_last()) + s.last().0
    }
}

pub open spec fn sum_green(s: Seq<(u16, u16, u16)>) -> int
    decreases s.len(),
{
    if s.len() == 0 {
        0
    } else {
        sum_green(s.drop_last()) + s.last().1
    }
}

pub open spec fn sum_blue(s: Seq<(u16, u16, u16)>) -> int
    decreases s.len(),
{
    if s.len() == 0 {
        0
    } else {
        sum_blue(s.drop_last()) + s.last().2
    }
}

/// Sums the `(red, green, blue)` peak levels of a set of outputs.
pub fn aggregate_peaks(peaks: &Vec<(u16, u16, u16)>) -> (r: (u64, u64, u64))
    requires
        peaks@.len() <= 1_000_000,
    ensures
        r.0 == sum_red(peaks@),
        r.1 == sum_green(peaks@),
        r.2 == sum_blue(peaks@),
        r.0 <= 65535 * peaks@.len(),
        r.1 <= 65535 * peaks@.len(),
        r.2 <= 65535 * peaks@.len(),
{
    let mut rs: u64 = 0;
    let mut gs: u64 = 0;
    let mut bs: u64 = 0;
    let mut i: usize = 0;
    while i < peaks.len()
        invariant
            i <= peaks@.len() <= 1_000_000,
            rs == sum_red(peaks@.take(i as int)),
            gs == sum_green(peaks@.take(i as int)),
            bs == sum_blue(peaks@.take(i as int)),
            rs <= 65535 * i,
            gs <= 65535 * i,
            bs <= 65535 * i,
        decreases peaks@.len() - i,
    {
        let p = peaks[i];
        proof {
            assert(peaks@.take(i + 1).drop_last() =~= peaks@.take(i as int));
            assert(peaks@.take(i + 1).last() == peaks@[i as int]);
        }
        rs = rs + p.0 as u64;
        gs = gs + p.1 as u64;
        bs = bs + p.2 as u64;
        i = i + 1;
    }
    proof {
        assert(peaks@.take(peaks@.len() as int) =~= peaks@);
    }
    (rs, gs, bs)
}

/// Estimates the status shown by a set of outputs from their peak ramp
/// levels: aggregation followed by [`estimate_from_ramp`].
pub fn estimate_outputs(peaks: &Vec<(u16, u16, u16)>) -> (r: TempStatus)
    requires
        peaks@.len() <= 1_000_000,
    ensures
        (r.temp as int, r.brightness as int) == estimate_spec(
            sum_red(peaks@),
            sum_green(peaks@),
            sum_blue(peaks@),
            peaks@.len() as int,
        ),
        0 <= r.temp <= 1_700_000_000,
        0 <= r.brightness <= BRIGHTNESS_FULL,
{
    let sums = aggregate_peaks(peaks);
    estimate_from_ramp(sums.0, sums.1, sums.2, peaks.len())
}

} // verus!
