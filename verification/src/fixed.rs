//! Integer fixed-point arithmetic in Q30 format: a real value `x` is
//! held as the integer `x * 2^30`, rounded down.
//!
//! The gamma curve model needs a natural logarithm (to turn a Kelvin
//! value into per-channel factors) and a natural exponential (to invert
//! that fit when estimating the temperature a display currently shows).
//! Both are computed here over `u64` values, so that the whole curve
//! model verifies without floating point.
//!
//! `ln` reduces its argument to a mantissa in `[1, 2)` by repeated
//! halving and evaluates the inverse-hyperbolic-tangent series
//! `ln m == 2 (z + z^3/3 + z^5/5 + ...)` with `z == (m-1)/(m+1)`;
//! since `z <= 1/3` the truncated series is accurate to a few units in
//! the last place.  `exp` splits its argument into a multiple of `ln 2`
//! plus a remainder under `ln 2` and evaluates the Taylor series of the
//! remainder.

use vstd::prelude::*;
use vstd::arithmetic::power2::{pow2, lemma_pow2_unfold, lemma2_to64};
use vstd::arithmetic::mul::lemma_mul_upper_bound;
use vstd::arithmetic::div_mod::{lemma_multiply_divide_le, lemma_div_is_ordered};

verus! {

/// One in Q30 fixed point: `2^30`.
pub const Q30: u64 = 1073741824;

/// `ln 2` in Q30 fixed point, rounded to the nearest integer.
pub const LN2_Q30: u64 = 744261118;

/// Largest argument [`ln_q30`] accepts.
pub const LN_ARG_MAX: u64 = 4000000000;

/// Largest Q30 argument [`exp_round`] accepts (the real value 19).
pub const EXP_ARG_MAX: u64 = 19 * Q30;

/// The mantissa left when `v` is halved until it is under `2 * Q30`.
pub open spec fn mantissa(v: nat) -> nat
    decreases v,
{
    if v < 2 * Q30 {
        v
    } else {
        mantissa(v / 2)
    }
}

/// How many halvings [`mantissa`] performs on `v`.
pub open spec fn halvings(v: nat) -> nat
    decreases v,
{
    if v < 2 * Q30 {
        0nat
    } else {
        halvings(v / 2) + 1
    }
}

proof fn lemma_halvings_le(v: nat, k: nat)
    requires
        v < 2147483648 * pow2(k),
    ensures
        halvings(v) <= k,
    decreases v,
{
    if v < 2 * Q30 {
    } else {
        assert(pow2(0) == 1) by {
            lemma2_to64();
        }
        if k == 0 {
            assert(v < 2147483648);
            assert(false);
        }
        assert(pow2(k) == 2 * pow2((k - 1) as nat)) by {
            lemma_pow2_unfold(k);
        }
        assert(v < 4294967296 * pow2((k - 1) as nat));
        let w = v / 2;
        assert(2 * w <= v);
        assert(w < 2147483648 * pow2((k - 1) as nat));
        lemma_halvings_le(w, (k - 1) as nat);
    }
}

/// The truncated series `z + z^3/3 + z^5/5 + z^7/7 + z^9/9 + z^11/11`,
/// every product rescaled to Q30; `2 *` this sum is `ln m` for
/// `z == (m - 1)/(m + 1)`.
pub open spec fn atanh_sum_q30(z: int) -> int {
    let z2 = z * z / (Q30 as int);
    let t3 = z * z2 / (Q30 as int);
    let t5 = t3 * z2 / (Q30 as int);
    let t7 = t5 * z2 / (Q30 as int);
    let t9 = t7 * z2 / (Q30 as int);
    let t11 = t9 * z2 / (Q30 as int);
    z + t3 / 3 + t5 / 5 + t7 / 7 + t9 / 9 + t11 / 11
}

/// `ln x` in Q30 fixed point, as [`ln_q30`] computes it.
pub open spec fn ln_fixed(x: nat) -> int {
    let v = (x * Q30) as nat;
    let m = mantissa(v) as int;
    let z = (m - Q30) * (Q30 as int) / (m + Q30);
    halvings(v) * (LN2_Q30 as int) + 2 * atanh_sum_q30(z)
}

/// One odd-power step of the series: `t * z2 / Q30`, kept under `Q30`.
fn ln_term_step(t: u64, z2: u64) -> (r: u64)
    requires
        t <= Q30,
        z2 <= Q30,
    ensures
        r == t * z2 / (Q30 as int),
        r <= Q30,
{
    proof {
        lemma_mul_upper_bound(t as int, Q30 as int, z2 as int, Q30 as int);
        lemma_div_is_ordered((t * z2) as int, (Q30 * Q30) as int, Q30 as int);
    }
    t * z2 / Q30
}

/// Natural logarithm of `x` in Q30 fixed point.
///
/// The result equals the fully determined integer recipe [`ln_fixed`];
/// its distance from the real `ln x * 2^30` is a few units in the last
/// place (the series is truncated after the eleventh power and each
/// rescaling rounds down).
pub fn ln_q30(x: u64) -> (r: u64)
    requires
        1 <= x <= LN_ARG_MAX,
    ensures
        r == ln_fixed(x as nat),
        r <= 40_000_000_000,
{
    let xq: u64 = x * Q30;
    proof {
        assert(2147483648 * pow2(32) == 0x8000_0000_0000_0000) by {
            lemma2_to64();
        }
        lemma_halvings_le(xq as nat, 32);
    }
    let mut v: u64 = xq;
    let mut e: u64 = 0;
    while v >= 2 * Q30
        invariant
            Q30 <= v <= xq,
            mantissa(xq as nat) == mantissa(v as nat),
            halvings(xq as nat) == halvings(v as nat) + e,
            halvings(xq as nat) <= 32,
        decreases v,
    {
        v = v / 2;
        e = e + 1;
    }
    let m = v;
    proof {
        lemma_mul_upper_bound((m - Q30) as int, Q30 as int, Q30 as int, Q30 as int);
        lemma_multiply_divide_le(((m - Q30) * Q30) as int, (m + Q30) as int, Q30 as int);
        lemma_mul_upper_bound((m + Q30) as int, (m + Q30) as int, Q30 as int, Q30 as int);
    }
    let z = (m - Q30) * Q30 / (m + Q30);
    let z2 = ln_term_step(z, z);
    let t3 = ln_term_step(z, z2);
    let t5 = ln_term_step(t3, z2);
    let t7 = ln_term_step(t5, z2);
    let t9 = ln_term_step(t7, z2);
    let t11 = ln_term_step(t9, z2);
    let s = z + t3 / 3 + t5 / 5 + t7 / 7 + t9 / 9 + t11 / 11;
    e * LN2_Q30 + 2 * s
}

/// The truncated Taylor series of `e^(r/Q30)` in Q30, for
/// `0 <= r < LN2_Q30`, as [`exp_round`] computes it.
pub open spec fn exp_taylor_q30(r: int) -> int {
    let t1 = r;
    let t2 = t1 * r / (Q30 as int) / 2;
    let t3 = t2 * r / (Q30 as int) / 3;
    let t4 = t3 * r / (Q30 as int) / 4;
    let t5 = t4 * r / (Q30 as int) / 5;
    let t6 = t5 * r / (Q30 as int) / 6;
    let t7 = t6 * r / (Q30 as int) / 7;
    let t8 = t7 * r / (Q30 as int) / 8;
    let t9 = t8 * r / (Q30 as int) / 9;
    let t10 = t9 * r / (Q30 as int) / 10;
    let t11 = t10 * r / (Q30 as int) / 11;
    let t12 = t11 * r / (Q30 as int) / 12;
    Q30 + t1 + t2 + t3 + t4 + t5 + t6 + t7 + t8 + t9 + t10 + t11 + t12
}

/// `e^(y/Q30)` rounded to the nearest integer, as [`exp_round`]
/// computes it.
pub open spec fn exp_fixed(y: nat) -> int {
    let q = y / (LN2_Q30 as nat);
    let r = y % (LN2_Q30 as nat);
    (exp_taylor_q30(r as int) * pow2(q) + (Q30 as int) / 2) / (Q30 as int)
}

/// `2^k` as a `u64`.
fn pow2_u64(k: u64) -> (r: u64)
    requires
        k <= 62,
    ensures
        r == pow2(k as nat),
{
    proof {
        lemma2_to64();
    }
    let mut r: u64 = 1;
    let mut i: u64 = 0;
    while i < k
        invariant
            i <= k <= 62,
            r == pow2(i as nat),
            r <= 0x4000_0000_0000_0000,
        decreases k - i,
    {
        proof {
            lemma_pow2_unfold((i + 1) as nat);
            pow2_le_check(i as nat, k as nat);
        }
        r = r * 2;
        i = i + 1;
    }
    r
}

proof fn pow2_le_check(i: nat, k: nat)
    requires
        i < k <= 62,
    ensures
        pow2(i + 1) <= 0x4000_0000_0000_0000,
{
    if i + 1 < 62 {
        vstd::arithmetic::power2::lemma_pow2_strictly_increases(i + 1, 62nat);
    }
    assert(pow2(62) == 0x4000_0000_0000_0000) by {
        vstd::arithmetic::power2::lemma2_to64_rest();
    }
}

/// One Taylor step: `t * r / Q30 / n`, kept under `LN2_Q30`.
fn exp_term_step(t: u64, r: u64, n: u64) -> (t2: u64)
    requires
        t <= LN2_Q30,
        r < LN2_Q30,
        2 <= n <= 12,
    ensures
        t2 == t * r / (Q30 as int) / (n as int),
        t2 <= LN2_Q30,
{
    proof {
        lemma_mul_upper_bound(t as int, LN2_Q30 as int, r as int, Q30 as int);
        lemma_div_is_ordered((t * r) as int, (LN2_Q30 * Q30) as int, Q30 as int);
        lemma_div_is_ordered(t * r / (Q30 as int), LN2_Q30 as int, n as int);
    }
    t * r / Q30 / n
}

/// `e^(y/Q30)` rounded to the nearest integer.
///
/// The result equals the fully determined integer recipe [`exp_fixed`];
/// the series itself is accurate to well under one part in `10^7`, so
/// the final rounding to an integer dominates the error.
pub fn exp_round(y: u64) -> (r: u64)
    requires
        y <= EXP_ARG_MAX,
    ensures
        r == exp_fixed(y as nat),
        r <= 1_600_000_000,
{
    let q = y / LN2_Q30;
    let rr = y % LN2_Q30;
    let p = pow2_u64(q);
    proof {
        assert(q <= 27);
        lemma2_to64();
        if q < 27 {
            vstd::arithmetic::power2::lemma_pow2_strictly_increases(q as nat, 27nat);
        }
        assert(pow2(q as nat) <= 0x8000000);
    }
    let t1 = rr;
    let t2 = exp_term_step(t1, rr, 2);
    let t3 = exp_term_step(t2, rr, 3);
    let t4 = exp_term_step(t3, rr, 4);
    let t5 = exp_term_step(t4, rr, 5);
    let t6 = exp_term_step(t5, rr, 6);
    let t7 = exp_term_step(t6, rr, 7);
    let t8 = exp_term_step(t7, rr, 8);
    let t9 = exp_term_step(t8, rr, 9);
    let t10 = exp_term_step(t9, rr, 10);
    let t11 = exp_term_step(t10, rr, 11);
    let t12 = exp_term_step(t11, rr, 12);
    let er = Q30 + t1 + t2 + t3 + t4 + t5 + t6 + t7 + t8 + t9 + t10 + t11 + t12;
    proof {
        lemma_mul_upper_bound(er as int, (Q30 + 12 * LN2_Q30) as int, p as int, 0x8000000);
    }
    let num = er * p;
    (num + Q30 / 2) / Q30
}

} // verus!
