//! Fixed-point circular functions on milli-radians.
//!
//! These are the crate's own short polynomial approximations: each
//! function's contract states the computed polynomial exactly, together
//! with the range bounds the rest of the simulation needs. An angle is
//! reduced into one quadrant first, so any argument is accepted.

use vstd::prelude::*;

verus! {

use crate::fixed::{
    SCALE,
    spec_mul_fix,
    div_trunc,
    rem_trunc,
    mul_fix,
    spec_isqrt,
    isqrt,
    lemma_mul_fix_bound,
    lemma_div_trunc_bound,
};

/// A quarter turn, in milli-radians.
pub const HALF_PI_FP: i64 = 1_571;

/// A half turn, in milli-radians.
pub const PI_FP: i64 = 3_142;

/// A full turn, in milli-radians.
pub const TAU_FP: i64 = 6_283;

/// Every value these functions return stays within this bound.
pub const TRIG_BOUND: i64 = 1_700;

/// An angle folded into `[0, TAU_FP)`.
pub open spec fn spec_reduce_angle(x: int) -> int {
    (rem_trunc(x, TAU_FP as int) + TAU_FP) % (TAU_FP as int)
}

/// The sine polynomial `y - y^3/6 + y^5/120` on one quadrant.
pub open spec fn spec_sin_core(y: int) -> int {
    let y2 = spec_mul_fix(y, y);
    let y3 = spec_mul_fix(y2, y);
    let y5 = spec_mul_fix(y3, y2);
    y - div_trunc(y3, 6) + div_trunc(y5, 120)
}

/// The cosine polynomial `1 - y^2/2 + y^4/24 - y^6/720` on one quadrant.
pub open spec fn spec_cos_core(y: int) -> int {
    let y2 = spec_mul_fix(y, y);
    let y4 = spec_mul_fix(y2, y2);
    let y6 = spec_mul_fix(y4, y2);
    SCALE - div_trunc(y2, 2) + div_trunc(y4, 24) - div_trunc(y6, 720)
}

pub open spec fn spec_sin(x: int) -> int {
    let xm = spec_reduce_angle(x);
    let q = xm / (HALF_PI_FP as int);
    let y = xm - q * HALF_PI_FP;
    if q == 0 {
        spec_sin_core(y)
    } else if q == 1 {
        spec_cos_core(y)
    } else if q == 2 {
        -spec_sin_core(y)
    } else {
        -spec_cos_core(y)
    }
}

pub open spec fn spec_cos(x: int) -> int {
    let xm = spec_reduce_angle(x);
    let q = xm / (HALF_PI_FP as int);
    let y = xm - q * HALF_PI_FP;
    if q == 0 {
        spec_cos_core(y)
    } else if q == 1 {
        -spec_sin_core(y)
    } else if q == 2 {
        -spec_cos_core(y)
    } else {
        spec_sin_core(y)
    }
}

/// Folds an angle into `[0, TAU_FP)`.
fn reduce_angle(x: i64) -> (r: i64)
    ensures
        r == spec_reduce_angle(x as int),
        0 <= r < TAU_FP,
{
    let r0: i64 = x % TAU_FP;
    let r1: i64 = r0 + TAU_FP;
    r1 % TAU_FP
}

/// Bounds of the core polynomial terms on one quadrant.
proof fn lemma_core_term_bounds(y: int)
    requires
        0 <= y <= HALF_PI_FP,
    ensures
        0 <= y * y <= 2_469_000,
        0 <= spec_mul_fix(y, y) <= 2_469,
        0 <= spec_mul_fix(y, y) * y <= 3_879_000,
        0 <= spec_mul_fix(spec_mul_fix(y, y), y) <= 3_879,
        0 <= spec_mul_fix(spec_mul_fix(y, y), y) * spec_mul_fix(y, y) <= 9_578_000,
        0 <= spec_mul_fix(spec_mul_fix(spec_mul_fix(y, y), y), spec_mul_fix(y, y)) <= 9_578,
        0 <= spec_mul_fix(y, y) * spec_mul_fix(y, y) <= 6_096_000,
        0 <= spec_mul_fix(spec_mul_fix(y, y), spec_mul_fix(y, y)) <= 6_096,
        0 <= spec_mul_fix(spec_mul_fix(y, y), spec_mul_fix(y, y)) * spec_mul_fix(y, y)
            <= 15_052_000,
        0 <= spec_mul_fix(spec_mul_fix(spec_mul_fix(y, y), spec_mul_fix(y, y)), spec_mul_fix(y, y))
            <= 15_052,
{
    assert(0 <= y * y <= 2_469_000) by (nonlinear_arith)
        requires
            0 <= y <= 1_571,
    ;
    lemma_div_trunc_bound(y * y, SCALE as int, 2_469_000);
    vstd::arithmetic::div_mod::lemma_div_pos_is_pos(y * y, SCALE as int);
    let y2 = spec_mul_fix(y, y);
    assert(0 <= y2 * y <= 3_879_000) by (nonlinear_arith)
        requires
            0 <= y2 <= 2_469,
            0 <= y <= 1_571,
    ;
    lemma_div_trunc_bound(y2 * y, SCALE as int, 3_879_000);
    vstd::arithmetic::div_mod::lemma_div_pos_is_pos(y2 * y, SCALE as int);
    let y3 = spec_mul_fix(y2, y);
    assert(0 <= y3 * y2 <= 9_578_000) by (nonlinear_arith)
        requires
            0 <= y3 <= 3_879,
            0 <= y2 <= 2_469,
    ;
    lemma_div_trunc_bound(y3 * y2, SCALE as int, 9_578_000);
    vstd::arithmetic::div_mod::lemma_div_pos_is_pos(y3 * y2, SCALE as int);
    assert(0 <= y2 * y2 <= 6_096_000) by (nonlinear_arith)
        requires
            0 <= y2 <= 2_469,
    ;
    lemma_div_trunc_bound(y2 * y2, SCALE as int, 6_096_000);
    vstd::arithmetic::div_mod::lemma_div_pos_is_pos(y2 * y2, SCALE as int);
    let y4 = spec_mul_fix(y2, y2);
    assert(0 <= y4 * y2 <= 15_052_000) by (nonlinear_arith)
        requires
            0 <= y4 <= 6_096,
            0 <= y2 <= 2_469,
    ;
    lemma_div_trunc_bound(y4 * y2, SCALE as int, 15_052_000);
    vstd::arithmetic::div_mod::lemma_div_pos_is_pos(y4 * y2, SCALE as int);
}

/// The sine polynomial on one quadrant.
fn sin_core(y: i64) -> (r: i64)
    requires
        0 <= y <= HALF_PI_FP,
    ensures
        r == spec_sin_core(y as int),
        -TRIG_BOUND <= r <= TRIG_BOUND,
{
    proof {
        lemma_core_term_bounds(y as int);
    }
    let y2: i64 = mul_fix(y, y);
    let y3: i64 = mul_fix(y2, y);
    let y5: i64 = mul_fix(y3, y2);
    proof {
        lemma_div_trunc_bound(y3 as int, 6, 3_879);
        lemma_div_trunc_bound(y5 as int, 120, 9_578);
    }
    y - y3 / 6 + y5 / 120
}

/// The cosine polynomial on one quadrant.
fn cos_core(y: i64) -> (r: i64)
    requires
        0 <= y <= HALF_PI_FP,
    ensures
        r == spec_cos_core(y as int),
        -TRIG_BOUND <= r <= TRIG_BOUND,
{
    proof {
        lemma_core_term_bounds(y as int);
    }
    let y2: i64 = mul_fix(y, y);
    let y4: i64 = mul_fix(y2, y2);
    let y6: i64 = mul_fix(y4, y2);
    proof {
        lemma_div_trunc_bound(y2 as int, 2, 2_470);
        lemma_div_trunc_bound(y4 as int, 24, 6_096);
        lemma_div_trunc_bound(y6 as int, 720, 15_120);
    }
    SCALE - y2 / 2 + y4 / 24 - y6 / 720
}

/// Fixed-point sine of an angle in milli-radians.
pub fn sin_fp(x: i64) -> (r: i64)
    ensures
        r == spec_sin(x as int),
        -TRIG_BOUND <= r <= TRIG_BOUND,
{
    let xm: i64 = reduce_angle(x);
    let q: i64 = xm / HALF_PI_FP;
    let y: i64 = xm - q * HALF_PI_FP;
    if q == 0 {
        sin_core(y)
    } else if q == 1 {
        cos_core(y)
    } else if q == 2 {
        -sin_core(y)
    } else {
        -cos_core(y)
    }
}

/// Fixed-point cosine of an angle in milli-radians.
pub fn cos_fp(x: i64) -> (r: i64)
    ensures
        r == spec_cos(x as int),
        -TRIG_BOUND <= r <= TRIG_BOUND,
{
    let xm: i64 = reduce_angle(x);
    let q: i64 = xm / HALF_PI_FP;
    let y: i64 = xm - q * HALF_PI_FP;
    if q == 0 {
        cos_core(y)
    } else if q == 1 {
        -sin_core(y)
    } else if q == 2 {
        -cos_core(y)
    } else {
        sin_core(y)
    }
}

/// The arccosine approximation on `[0, 1]`, over `u = 1 - x`:
/// `sqrt(2 u) * (1 + u/12 + 3 u^2/160 + 5 u^3/896)`.
pub open spec fn spec_acos_core(u: int) -> int {
    let s = spec_isqrt(2 * u * SCALE);
    let u2 = spec_mul_fix(u, u);
    let u3 = spec_mul_fix(u2, u);
    let corr = SCALE + div_trunc(u, 12) + div_trunc(3 * u2, 160) + div_trunc(5 * u3, 896);
    spec_mul_fix(s, corr)
}

pub open spec fn spec_acos(x: int) -> int {
    if x >= 0 {
        spec_acos_core(SCALE - x)
    } else {
        PI_FP - spec_acos_core(SCALE + x)
    }
}

/// The facts the arccosine series needs on `[0, 1]`: term ranges, and
/// that the result stays within a quarter turn.
proof fn lemma_acos_core_bounds(u: int)
    requires
        0 <= u <= SCALE,
    ensures
        0 <= u * u <= 1_000_000,
        0 <= spec_mul_fix(u, u) <= 1_000,
        0 <= spec_mul_fix(u, u) * u <= 1_000_000,
        0 <= spec_mul_fix(spec_mul_fix(u, u), u) <= 1_000,
        0 <= spec_isqrt(2 * u * SCALE) <= 1_414,
        0 <= spec_acos_core(u) <= HALF_PI_FP,
{
    assert(0 <= u * u <= 1_000_000) by (nonlinear_arith)
        requires
            0 <= u <= 1_000,
    ;
    lemma_div_trunc_bound(u * u, SCALE as int, 1_000_000);
    vstd::arithmetic::div_mod::lemma_div_pos_is_pos(u * u, SCALE as int);
    let u2 = spec_mul_fix(u, u);
    assert(0 <= u2 * u <= 1_000_000) by (nonlinear_arith)
        requires
            0 <= u2 <= 1_000,
            0 <= u <= 1_000,
    ;
    lemma_div_trunc_bound(u2 * u, SCALE as int, 1_000_000);
    vstd::arithmetic::div_mod::lemma_div_pos_is_pos(u2 * u, SCALE as int);
    let u3 = spec_mul_fix(u2, u);
    crate::fixed::lemma_isqrt_exists(2 * u * SCALE);
    crate::fixed::lemma_isqrt_monotone(2 * u * SCALE, 2_000_000);
    assert(spec_isqrt(2_000_000) == 1_414) by {
        assert(1_414 * 1_414 <= 2_000_000 < 1_415 * 1_415) by (nonlinear_arith);
        crate::fixed::lemma_isqrt_unique(2_000_000, 1_414);
    }
    let s = spec_isqrt(2 * u * SCALE);
    lemma_div_trunc_bound(u, 12, 1_000);
    vstd::arithmetic::div_mod::lemma_div_pos_is_pos(u, 12);
    lemma_div_trunc_bound(3 * u2, 160, 3_040);
    vstd::arithmetic::div_mod::lemma_div_pos_is_pos(3 * u2, 160);
    lemma_div_trunc_bound(5 * u3, 896, 5_376);
    vstd::arithmetic::div_mod::lemma_div_pos_is_pos(5 * u3, 896);
    let corr = SCALE + div_trunc(u, 12) + div_trunc(3 * u2, 160) + div_trunc(5 * u3, 896);
    assert(corr <= 1_111);
    assert(0 <= s * corr <= 1_571_000) by (nonlinear_arith)
        requires
            0 <= s <= 1_414,
            0 <= corr <= 1_111,
    ;
    lemma_div_trunc_bound(s * corr, SCALE as int, 1_571_000);
    vstd::arithmetic::div_mod::lemma_div_pos_is_pos(s * corr, SCALE as int);
}

/// Fixed-point arccosine: maps `[-1, 1]` in milli-units onto
/// `[0, PI_FP]` milli-radians.
pub fn acos_fp(x: i64) -> (r: i64)
    requires
        -SCALE <= x <= SCALE,
    ensures
        r == spec_acos(x as int),
        0 <= r <= PI_FP,
{
    if x >= 0 {
        acos_core(SCALE - x)
    } else {
        PI_FP - acos_core(SCALE + x)
    }
}

/// The arccosine series over `u = 1 - x`, for `u` in `[0, 1]`.
fn acos_core(u: i64) -> (r: i64)
    requires
        0 <= u <= SCALE,
    ensures
        r == spec_acos_core(u as int),
        0 <= r <= HALF_PI_FP,
{
    proof {
        lemma_acos_core_bounds(u as int);
    }
    let s: i64 = isqrt((2 * u * SCALE) as u64) as i64;
    let u2: i64 = mul_fix(u, u);
    let u3: i64 = mul_fix(u2, u);
    proof {
        lemma_div_trunc_bound(u as int, 12, 1_000);
        lemma_div_trunc_bound(3 * u2 as int, 160, 3_040);
        lemma_div_trunc_bound(5 * u3 as int, 896, 5_376);
        vstd::arithmetic::div_mod::lemma_div_pos_is_pos(u as int, 12);
        vstd::arithmetic::div_mod::lemma_div_pos_is_pos(3 * u2 as int, 160);
        vstd::arithmetic::div_mod::lemma_div_pos_is_pos(5 * u3 as int, 896);
    }
    let corr: i64 = SCALE + u / 12 + (3 * u2) / 160 + (5 * u3) / 896;
    mul_fix(s, corr)
}

} // verus!
