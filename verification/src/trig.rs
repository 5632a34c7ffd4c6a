//! Fixed-point circle functions used to place polygon vertices.
//!
//! Angles are measured in micro-radians (`TAU_MICRO` micro-radians make a
//! full turn) and results are scaled by `MICRO`, so `cos_micro(0)` is
//! `1_000_000`. The value is a degree-six Taylor polynomial on a quarter
//! turn, folded over the other quadrants and clamped to the unit range; the
//! specification functions below pin the result exactly.

use vstd::prelude::*;
use vstd::arithmetic::div_mod::lemma_mod_multiples_vanish;
use vstd::arithmetic::div_mod::lemma_div_is_ordered;

verus! {

/// Micro-radians in one full turn (two pi, rounded to micro-radians).
pub const TAU_MICRO: i64 = 6_283_185;

/// Micro-radians in half a turn.
pub const PI_MICRO: i64 = 3_141_593;

/// Micro-radians in a quarter turn.
pub const HALF_PI_MICRO: i64 = 1_570_796;

/// An angle folded into `[0, TAU_MICRO)`.
pub open spec fn norm_angle(a: int) -> int {
    a % 6_283_185
}

/// The clamped Taylor value on `[0, HALF_PI_MICRO + 1]`, scaled by `MICRO`.
#[verifier::opaque]
pub open spec fn cos_quarter(x: int) -> int {
    let x2 = x * x;
    let x4 = x2 * x2;
    let x6 = x4 * x2;
    let t = 1_000_000 - x2 / 2_000_000 + x4 / 24_000_000_000_000_000_000
        - x6 / 720_000_000_000_000_000_000_000_000_000_000;
    if t < 0 {
        0
    } else if t > 1_000_000 {
        1_000_000
    } else {
        t
    }
}

/// Cosine of `a` micro-radians, scaled by `MICRO`.
pub open spec fn spec_cos_micro(a: int) -> int {
    let m = norm_angle(a);
    if m < 1_570_796 {
        cos_quarter(m)
    } else if m < 3_141_593 {
        -cos_quarter(3_141_593 - m)
    } else if m < 4_712_389 {
        -cos_quarter(m - 3_141_593)
    } else {
        cos_quarter(6_283_185 - m)
    }
}

/// Sine of `a` micro-radians, scaled by `MICRO`: the cosine a quarter turn
/// earlier.
pub open spec fn spec_sin_micro(a: int) -> int {
    spec_cos_micro(a - 1_570_796)
}

fn cos_quarter_exec(x: i64) -> (r: i64)
    requires
        0 <= x <= 1_570_797,
    ensures
        r == cos_quarter(x as int),
        0 <= r <= 1_000_000,
{
    proof {
        reveal(cos_quarter);
    }
    let xu: u128 = x as u128;
    assert(xu * xu <= 2_468_000_000_000) by (nonlinear_arith)
        requires
            0 <= xu <= 1_570_797,
    ;
    let x2: u128 = xu * xu;
    assert(x2 * x2 <= 6_100_000_000_000_000_000_000_000) by (nonlinear_arith)
        requires
            0 <= x2 <= 2_468_000_000_000,
    ;
    let x4: u128 = x2 * x2;
    assert(x4 * x2 <= 16_000_000_000_000_000_000_000_000_000_000_000_000u128) by (nonlinear_arith)
        requires
            0 <= x4 <= 6_100_000_000_000_000_000_000_000,
            0 <= x2 <= 2_468_000_000_000,
    ;
    let x6: u128 = x4 * x2;
    proof {
        lemma_div_is_ordered(x2 as int, 2_468_000_000_000, 2_000_000);
        lemma_div_is_ordered(x4 as int, 6_100_000_000_000_000_000_000_000, 24_000_000_000_000_000_000);
        lemma_div_is_ordered(
            x6 as int,
            16_000_000_000_000_000_000_000_000_000_000_000_000,
            720_000_000_000_000_000_000_000_000_000_000,
        );
    }
    let t2: u128 = x2 / 2_000_000;
    let t4: u128 = x4 / 24_000_000_000_000_000_000;
    let t6: u128 = x6 / 720_000_000_000_000_000_000_000_000_000_000;
    let t: i64 = 1_000_000 - (t2 as i64) + (t4 as i64) - (t6 as i64);
    if t < 0 {
        0
    } else if t > 1_000_000 {
        1_000_000
    } else {
        t
    }
}

fn cos_norm(a: i128) -> (r: i64)
    requires
        -20_000_000_000_000_000_000 <= a <= 20_000_000_000_000_000_000,
    ensures
        r == spec_cos_micro(a as int),
        -1_000_000 <= r <= 1_000_000,
{
    // Shift by a multiple of the period so the dividend is non-negative.
    let big: u128 = (a + 20_000_006_173_500_000_000) as u128;
    let m: i64 = (big % 6_283_185) as i64;
    proof {
        assert(6_283_185 * 3_183_100_000_000 == 20_000_006_173_500_000_000int) by (nonlinear_arith);
        lemma_mod_multiples_vanish(3_183_100_000_000, a as int, 6_283_185);
        assert(m == norm_angle(a as int));
    }
    if m < 1_570_796 {
        cos_quarter_exec(m)
    } else if m < 3_141_593 {
        let v = cos_quarter_exec(3_141_593 - m);
        -v
    } else if m < 4_712_389 {
        let v = cos_quarter_exec(m - 3_141_593);
        -v
    } else {
        cos_quarter_exec(6_283_185 - m)
    }
}

/// Cosine of `a` micro-radians, scaled by `MICRO` and clamped to the unit
/// range; exactly `spec_cos_micro`.
pub fn cos_micro(a: i64) -> (r: i64)
    ensures
        r == spec_cos_micro(a as int),
        -1_000_000 <= r <= 1_000_000,
{
    cos_norm(a as i128)
}

/// Sine of `a` micro-radians, scaled by `MICRO` and clamped to the unit
/// range; exactly `spec_sin_micro`.
pub fn sin_micro(a: i64) -> (r: i64)
    ensures
        r == spec_sin_micro(a as int),
        -1_000_000 <= r <= 1_000_000,
{
    cos_norm(a as i128 - 1_570_796)
}

/// The cosine value always lies in the unit range.
pub proof fn lemma_cos_bounded(a: int)
    ensures
        -1_000_000 <= spec_cos_micro(a) <= 1_000_000,
{
    reveal(cos_quarter);
}

} // verus!
