//! Fixed-point circular functions for the TDB periodic terms.
//!
//! Values are held at the scale `10^-12` (one unit is a picounit), so a
//! sine value occupies `[-10^12, 10^12]`.  Angles arrive in pico-degrees,
//! are reduced modulo a full turn exactly in degree space, converted once
//! to pico-radians, folded onto an octant, and evaluated by a short
//! alternating polynomial.  The truncated series and the rounded constants
//! keep the result within a few parts in `10^9` of the exact sine, far
//! below what the millisecond-amplitude TDB terms can carry.

use vstd::prelude::*;

use crate::days::{div_floor, lemma_div_abs_bound, lemma_div_nonneg, mod_floor};

verus! {

/// One unit at the trig scale: sine values live in `[-TRIG_SCALE, TRIG_SCALE]`.
pub const TRIG_SCALE: i128 = 1_000_000_000_000;

/// Half π at the trig scale (rounded to the nearest picoradian).
pub const HALF_PI_P: i128 = 1_570_796_326_795;

/// A full turn at the trig scale: exactly four quadrants.
pub const TWO_PI_P: i128 = 4 * HALF_PI_P;

/// The fold point inside a quadrant, close to π/4.
pub const OCTANT_P: i128 = 785_398_163_397;

/// A full turn in pico-degrees.
pub const TURN_PDEG: i128 = 360_000_000_000_000;

/// π/180 at the scale `10^-18`: converts pico-degrees to pico-radians.
pub const RAD_PER_DEG_NUM: i128 = 17_453_292_519_943_295;

/// Denominator of [`RAD_PER_DEG_NUM`].
pub const RAD_PER_DEG_DEN: i128 = 1_000_000_000_000_000_000;

/// The largest angle argument (in pico-degrees or pico-radians) the
/// reduction accepts.
pub const ANGLE_MAX: i128 = 1_000_000_000_000_000_000_000;

/// Product of two trig-scale values, rescaled: `a * b / TRIG_SCALE`.
pub open spec fn trig_mul_model(a: int, b: int) -> int {
    a * b / TRIG_SCALE as int
}

/// Rescaled product of two trig-scale values; the scale is closed under it.
fn trig_mul(a: i128, b: i128) -> (r: i128)
    requires
        -TRIG_SCALE <= a <= TRIG_SCALE,
        -TRIG_SCALE <= b <= TRIG_SCALE,
    ensures
        r as int == trig_mul_model(a as int, b as int),
        -TRIG_SCALE <= r <= TRIG_SCALE,
{
    proof {
        assert(-1_000_000_000_000_000_000_000_000 <= a * b
            <= 1_000_000_000_000_000_000_000_000) by (nonlinear_arith)
            requires
                -1_000_000_000_000 <= a <= 1_000_000_000_000,
                -1_000_000_000_000 <= b <= 1_000_000_000_000,
        ;
        vstd::arithmetic::div_mod::lemma_fundamental_div_mod(a * b, TRIG_SCALE as int);
        vstd::arithmetic::div_mod::lemma_mod_bound(a * b, TRIG_SCALE as int);
        assert(-TRIG_SCALE <= (a * b) / (TRIG_SCALE as int) <= TRIG_SCALE) by (nonlinear_arith)
            requires
                TRIG_SCALE == 1_000_000_000_000,
                -1_000_000_000_000_000_000_000_000 <= a * b <= 1_000_000_000_000_000_000_000_000,
                a * b == TRIG_SCALE * ((a * b) / (TRIG_SCALE as int)) + (a * b) % (
                TRIG_SCALE as int),
                0 <= (a * b) % (TRIG_SCALE as int) < TRIG_SCALE,
        ;
    }
    div_floor(a * b, TRIG_SCALE)
}

/// The sine polynomial on the folded range `[0, OCTANT_P + 1]`:
/// `x - x^3/6 + x^5/120 - x^7/5040 + x^9/362880` over rescaled powers.
pub open spec fn sin_poly_model(x: int) -> int {
    let x2 = trig_mul_model(x, x);
    let x3 = trig_mul_model(x2, x);
    let x5 = trig_mul_model(x3, x2);
    let x7 = trig_mul_model(x5, x2);
    let x9 = trig_mul_model(x7, x2);
    x - x3 / 6 + x5 / 120 - x7 / 5040 + x9 / 362880
}

/// The cosine polynomial on the folded range:
/// `1 - x^2/2 + x^4/24 - x^6/720 + x^8/40320` over rescaled powers.
pub open spec fn cos_poly_model(x: int) -> int {
    let x2 = trig_mul_model(x, x);
    let x4 = trig_mul_model(x2, x2);
    let x6 = trig_mul_model(x4, x2);
    let x8 = trig_mul_model(x6, x2);
    TRIG_SCALE - x2 / 2 + x4 / 24 - x6 / 720 + x8 / 40320
}

/// Sine on the folded range.
fn sin_poly(x: i128) -> (r: i128)
    requires
        0 <= x <= OCTANT_P + 1,
    ensures
        r as int == sin_poly_model(x as int),
        -1_050_000_000_000 <= r <= 1_050_000_000_000,
{
    let x2: i128 = trig_mul(x, x);
    let x3: i128 = trig_mul(x2, x);
    let x5: i128 = trig_mul(x3, x2);
    let x7: i128 = trig_mul(x5, x2);
    let x9: i128 = trig_mul(x7, x2);
    proof {
        lemma_div_abs_bound(x3 as int, 6, TRIG_SCALE as int, 166_666_666_668);
        lemma_div_abs_bound(x5 as int, 120, TRIG_SCALE as int, 8_333_333_335);
        lemma_div_abs_bound(x7 as int, 5040, TRIG_SCALE as int, 198_412_700);
        lemma_div_abs_bound(x9 as int, 362880, TRIG_SCALE as int, 2_755_733);
    }
    x - div_floor(x3, 6) + div_floor(x5, 120) - div_floor(x7, 5040) + div_floor(x9, 362880)
}

/// Cosine on the folded range.
fn cos_poly(x: i128) -> (r: i128)
    requires
        0 <= x <= OCTANT_P + 1,
    ensures
        r as int == cos_poly_model(x as int),
        -1_050_000_000_000 <= r <= 1_050_000_000_000,
{
    let x2: i128 = trig_mul(x, x);
    let x4: i128 = trig_mul(x2, x2);
    let x6: i128 = trig_mul(x4, x2);
    let x8: i128 = trig_mul(x6, x2);
    proof {
        lemma_div_abs_bound(x2 as int, 2, TRIG_SCALE as int, 500_000_000_001);
        lemma_div_abs_bound(x4 as int, 24, TRIG_SCALE as int, 41_666_666_668);
        lemma_div_abs_bound(x6 as int, 720, TRIG_SCALE as int, 1_388_888_890);
        lemma_div_abs_bound(x8 as int, 40320, TRIG_SCALE as int, 24_801_589);
    }
    TRIG_SCALE - div_floor(x2, 2) + div_floor(x4, 24) - div_floor(x6, 720) + div_floor(x8, 40320)
}

/// Clamp a value to the closed unit band of the trig scale (with the
/// approximation slack the polynomials carry).
pub open spec fn clamp_unit(x: int) -> int {
    if x < -1_050_000_000_000 {
        -1_050_000_000_000
    } else if x > 1_050_000_000_000 {
        1_050_000_000_000
    } else {
        x
    }
}

/// Sine of an angle in pico-radians: reduce modulo a full turn, pick the
/// quadrant, fold onto the octant, and apply the matching polynomial.
/// The result is clamped to the unit band, which the polynomials never
/// actually leave.
pub open spec fn sin_prad_model(x: int) -> int {
    clamp_unit(sin_prad_folded(x))
}

/// The quadrant folding underneath [`sin_prad_model`].
pub open spec fn sin_prad_folded(x: int) -> int {
    let y = x % TWO_PI_P as int;
    let q = y / HALF_PI_P as int;
    let r = y % HALF_PI_P as int;
    if q == 0 {
        if r <= OCTANT_P {
            sin_poly_model(r)
        } else {
            cos_poly_model(HALF_PI_P - r)
        }
    } else if q == 1 {
        if r <= OCTANT_P {
            cos_poly_model(r)
        } else {
            sin_poly_model(HALF_PI_P - r)
        }
    } else if q == 2 {
        if r <= OCTANT_P {
            -sin_poly_model(r)
        } else {
            -cos_poly_model(HALF_PI_P - r)
        }
    } else {
        if r <= OCTANT_P {
            -cos_poly_model(r)
        } else {
            -sin_poly_model(HALF_PI_P - r)
        }
    }
}

/// Sine of an angle in pico-radians.
pub fn sin_prad(x: i128) -> (r: i128)
    requires
        -ANGLE_MAX <= x <= ANGLE_MAX,
    ensures
        r as int == sin_prad_model(x as int),
        -1_050_000_000_000 <= r <= 1_050_000_000_000,
{
    let y: i128 = mod_floor(x, TWO_PI_P);
    let q: i128 = div_floor(y, HALF_PI_P);
    let rem: i128 = mod_floor(y, HALF_PI_P);
    proof {
        vstd::arithmetic::div_mod::lemma_fundamental_div_mod(y as int, HALF_PI_P as int);
        assert(0 <= q <= 3) by (nonlinear_arith)
            requires
                0 <= y < 4 * 1_570_796_326_795,
                HALF_PI_P == 1_570_796_326_795,
                y == HALF_PI_P * q + rem,
                0 <= rem < HALF_PI_P,
        ;
    }
    if q == 0 {
        if rem <= OCTANT_P {
            sin_poly(rem)
        } else {
            cos_poly(HALF_PI_P - rem)
        }
    } else if q == 1 {
        if rem <= OCTANT_P {
            cos_poly(rem)
        } else {
            sin_poly(HALF_PI_P - rem)
        }
    } else if q == 2 {
        if rem <= OCTANT_P {
            -sin_poly(rem)
        } else {
            -cos_poly(HALF_PI_P - rem)
        }
    } else {
        if rem <= OCTANT_P {
            -cos_poly(rem)
        } else {
            -sin_poly(HALF_PI_P - rem)
        }
    }
}

/// An angle in pico-degrees reduced to `[0, 2π)` pico-radians.
pub open spec fn deg_to_prad_model(a: int) -> int {
    (a % TURN_PDEG as int) * RAD_PER_DEG_NUM / RAD_PER_DEG_DEN as int
}

/// Reduce an angle in pico-degrees modulo a full turn and convert it to
/// pico-radians.
pub fn deg_to_prad(a: i128) -> (r: i128)
    requires
        -ANGLE_MAX <= a <= ANGLE_MAX,
    ensures
        r as int == deg_to_prad_model(a as int),
        0 <= r <= 6_300_000_000_000,
{
    let red: i128 = mod_floor(a, TURN_PDEG);
    proof {
        assert(0 <= red * RAD_PER_DEG_NUM <= 6_290_000_000_000_000_000_000_000_000_000)
            by (nonlinear_arith)
            requires
                0 <= red < 360_000_000_000_000,
                RAD_PER_DEG_NUM == 17_453_292_519_943_295,
        ;
        lemma_div_nonneg(red * RAD_PER_DEG_NUM, RAD_PER_DEG_DEN as int);
        lemma_div_abs_bound(
            red * RAD_PER_DEG_NUM,
            RAD_PER_DEG_DEN as int,
            6_290_000_000_000_000_000_000_000_000_000,
            6_300_000_000_000,
        );
    }
    div_floor(red * RAD_PER_DEG_NUM, RAD_PER_DEG_DEN)
}

} // verus!
