//! Fixed-point arithmetic: every physical quantity in this crate is an
//! `i64` count of thousandths of its unit (metres, metres per second,
//! radians, kilograms, newtons). `SCALE` units stand for 1.0.

use vstd::prelude::*;

verus! {

/// Number of fixed-point units in 1.0.
pub const SCALE: i64 = 1000;

/// Largest magnitude any component of the simulation state may take.
/// State updates saturate here instead of overflowing.
pub const LIMIT: i64 = 1_000_000_000;

/// Truncating (round-toward-zero) division, the semantics of Rust's `/`
/// on signed integers. Meaningful for `b > 0`.
pub open spec fn div_trunc(a: int, b: int) -> int {
    if a >= 0 {
        a / b
    } else {
        -((-a) / b)
    }
}

/// Truncating remainder, the semantics of Rust's `%` on signed
/// integers. Meaningful for `b > 0`.
pub open spec fn rem_trunc(a: int, b: int) -> int {
    if a >= 0 {
        a % b
    } else {
        -((-a) % b)
    }
}

/// The fixed-point product: `a * b / SCALE`, truncated toward zero.
pub open spec fn spec_mul_fix(a: int, b: int) -> int {
    div_trunc(a * b, SCALE as int)
}

/// The fixed-point quotient: `a * SCALE / b`, truncated toward zero.
/// Meaningful for `b > 0`.
pub open spec fn spec_div_fix(a: int, b: int) -> int {
    div_trunc(a * (SCALE as int), b)
}

pub open spec fn spec_clamp(x: int, lo: int, hi: int) -> int {
    if x < lo {
        lo
    } else if x > hi {
        hi
    } else {
        x
    }
}

/// `x + y`, saturated into the simulation's state range.
pub open spec fn spec_add_sat(x: int, y: int) -> int {
    spec_clamp(x + y, -LIMIT as int, LIMIT as int)
}

/// Fixed-point product of two milli-scaled values.
pub fn mul_fix(a: i64, b: i64) -> (r: i64)
    requires
        -0x7fff_ffff_ffff_ffff <= a * b <= 0x7fff_ffff_ffff_ffff,
    ensures
        r == spec_mul_fix(a as int, b as int),
{
    let p: i64 = a * b;
    p / SCALE
}

/// Fixed-point quotient of two milli-scaled values; the divisor must be
/// positive.
pub fn div_fix(a: i64, b: i64) -> (r: i64)
    requires
        b > 0,
        -0x7fff_ffff_ffff_ffff <= a * SCALE <= 0x7fff_ffff_ffff_ffff,
    ensures
        r == spec_div_fix(a as int, b as int),
{
    let p: i64 = a * SCALE;
    p / b
}

/// Fixed-point product with explicit ghost bounds on the factors, so
/// callers get the product's range without repeating the nonlinear
/// reasoning.
pub fn mul_fix_b(a: i64, b: i64, Ghost(ma): Ghost<int>, Ghost(mb): Ghost<int>) -> (r: i64)
    requires
        0 <= ma,
        0 <= mb,
        -ma <= a <= ma,
        -mb <= b <= mb,
        ma * mb <= 0x7fff_ffff_ffff_ffff,
    ensures
        r == spec_mul_fix(a as int, b as int),
        -((ma * mb) / (SCALE as int)) <= r <= (ma * mb) / (SCALE as int),
{
    proof {
        assert(-(ma * mb) <= a * b <= ma * mb) by (nonlinear_arith)
            requires
                0 <= ma,
                0 <= mb,
                -ma <= a <= ma,
                -mb <= b <= mb,
        ;
        lemma_mul_fix_bound(a as int, b as int, ma, mb);
    }
    mul_fix(a, b)
}

pub fn clamp_fix(x: i64, lo: i64, hi: i64) -> (r: i64)
    requires
        lo <= hi,
    ensures
        r == spec_clamp(x as int, lo as int, hi as int),
{
    if x < lo {
        lo
    } else if x > hi {
        hi
    } else {
        x
    }
}

/// Saturating addition into the state range `[-LIMIT, LIMIT]`.
pub fn add_sat(a: i64, b: i64) -> (r: i64)
    requires
        -0x7fff_ffff_ffff_ffff <= a + b <= 0x7fff_ffff_ffff_ffff,
    ensures
        r == spec_add_sat(a as int, b as int),
{
    let s: i64 = a + b;
    clamp_fix(s, -LIMIT, LIMIT)
}

/// Truncating division keeps the quotient within the scaled bound of
/// the dividend: `|a| <= m` gives `|div_trunc(a, b)| <= m / b`.
pub proof fn lemma_div_trunc_bound(a: int, b: int, m: int)
    requires
        b > 0,
        0 <= m,
        -m <= a <= m,
    ensures
        -(m / b) <= div_trunc(a, b) <= m / b,
{
    if a >= 0 {
        vstd::arithmetic::div_mod::lemma_div_is_ordered(a, m, b);
        vstd::arithmetic::div_mod::lemma_div_pos_is_pos(a, b);
    } else {
        vstd::arithmetic::div_mod::lemma_div_is_ordered(-a, m, b);
        vstd::arithmetic::div_mod::lemma_div_pos_is_pos(-a, b);
    }
}

/// The fixed-point product of bounded factors is bounded by the scaled
/// product of the bounds.
pub proof fn lemma_mul_fix_bound(a: int, b: int, ma: int, mb: int)
    requires
        0 <= ma,
        0 <= mb,
        -ma <= a <= ma,
        -mb <= b <= mb,
    ensures
        -((ma * mb) / (SCALE as int)) <= spec_mul_fix(a, b) <= (ma * mb) / (SCALE as int),
{
    assert(-(ma * mb) <= a * b <= ma * mb) by (nonlinear_arith)
        requires
            0 <= ma,
            0 <= mb,
            -ma <= a <= ma,
            -mb <= b <= mb,
    ;
    assert(0 <= ma * mb) by (nonlinear_arith)
        requires
            0 <= ma,
            0 <= mb,
    ;
    lemma_div_trunc_bound(a * b, SCALE as int, ma * mb);
}

/// Zero is absorbing for the fixed-point product and quotient.
pub proof fn lemma_fix_zero(a: int, b: int)
    requires
        0 < b,
    ensures
        spec_mul_fix(0, a) == 0,
        spec_mul_fix(a, 0) == 0,
        spec_div_fix(0, b) == 0,
{
    vstd::arithmetic::div_mod::lemma_div_of0(SCALE as int);
    vstd::arithmetic::div_mod::lemma_div_of0(b);
}

/// A larger divisor only shrinks the magnitude of a truncating
/// quotient: with `|a| <= m` and `0 < bmin <= b`, the quotient stays
/// within `m / bmin`.
pub proof fn lemma_div_trunc_denom_bound(a: int, b: int, m: int, bmin: int)
    requires
        0 < bmin <= b,
        0 <= m,
        -m <= a <= m,
    ensures
        -(m / bmin) <= div_trunc(a, b) <= m / bmin,
{
    if a >= 0 {
        vstd::arithmetic::div_mod::lemma_div_is_ordered_by_denominator(a, bmin, b);
        vstd::arithmetic::div_mod::lemma_div_is_ordered(a, m, bmin);
        vstd::arithmetic::div_mod::lemma_div_pos_is_pos(a, b);
    } else {
        vstd::arithmetic::div_mod::lemma_div_is_ordered_by_denominator(-a, bmin, b);
        vstd::arithmetic::div_mod::lemma_div_is_ordered(-a, m, bmin);
        vstd::arithmetic::div_mod::lemma_div_pos_is_pos(-a, b);
    }
}

/// Fixed-point quotient with ghost bounds: `|a| <= ma` over a divisor
/// at least `bmin` keeps the result within `ma * SCALE / bmin`.
pub fn div_fix_b(a: i64, b: i64, Ghost(ma): Ghost<int>, Ghost(bmin): Ghost<int>) -> (r: i64)
    requires
        0 <= ma,
        0 < bmin <= b,
        -ma <= a <= ma,
        ma * (SCALE as int) <= 0x7fff_ffff_ffff_ffff,
    ensures
        r == spec_div_fix(a as int, b as int),
        -((ma * (SCALE as int)) / bmin) <= r <= (ma * (SCALE as int)) / bmin,
{
    proof {
        assert(-(ma * (SCALE as int)) <= a * (SCALE as int) <= ma * (SCALE as int))
            by (nonlinear_arith)
            requires
                0 <= ma,
                -ma <= a <= ma,
                SCALE > 0,
        ;
        lemma_div_trunc_denom_bound(a as int * (SCALE as int), b as int, ma * (SCALE as int), bmin);
    }
    div_fix(a, b)
}

/// `r` is the integer square root of `n`.
pub open spec fn is_isqrt(n: int, r: int) -> bool {
    0 <= r && r * r <= n && n < (r + 1) * (r + 1)
}

/// The integer square root, as a value: the unique `r` with
/// `r * r <= n < (r + 1) * (r + 1)`.
pub open spec fn spec_isqrt(n: int) -> int {
    choose|r: int| is_isqrt(n, r)
}

/// Every non-negative integer has an integer square root.
pub proof fn lemma_isqrt_exists(n: int)
    requires
        0 <= n,
    ensures
        is_isqrt(n, spec_isqrt(n)),
    decreases n,
{
    if n == 0 {
        assert(is_isqrt(0, 0));
    } else {
        lemma_isqrt_exists(n - 1);
        let p = spec_isqrt(n - 1);
        if (p + 1) * (p + 1) <= n {
            assert((p + 1) * (p + 1) == n);
            assert((p + 2) * (p + 2) > n) by (nonlinear_arith)
                requires
                    0 <= p,
                    (p + 1) * (p + 1) == n,
            ;
            assert(is_isqrt(n, p + 1));
        } else {
            assert(is_isqrt(n, p));
        }
    }
}

/// The integer square root is unique.
pub proof fn lemma_isqrt_unique(n: int, r: int)
    requires
        is_isqrt(n, r),
    ensures
        spec_isqrt(n) == r,
{
    let c = spec_isqrt(n);
    assert(is_isqrt(n, c));
    if c < r {
        assert((c + 1) * (c + 1) <= r * r) by (nonlinear_arith)
            requires
                0 <= c + 1 <= r,
        ;
    }
    if r < c {
        assert((r + 1) * (r + 1) <= c * c) by (nonlinear_arith)
            requires
                0 <= r + 1 <= c,
        ;
    }
}

/// The integer square root is monotone.
pub proof fn lemma_isqrt_monotone(n1: int, n2: int)
    requires
        0 <= n1 <= n2,
    ensures
        spec_isqrt(n1) <= spec_isqrt(n2),
{
    lemma_isqrt_exists(n1);
    lemma_isqrt_exists(n2);
    let r1 = spec_isqrt(n1);
    let r2 = spec_isqrt(n2);
    if r2 < r1 {
        assert((r2 + 1) * (r2 + 1) <= r1 * r1) by (nonlinear_arith)
            requires
                0 <= r2 + 1 <= r1,
        ;
    }
}

/// A perfect square's integer square root is its root.
pub proof fn lemma_isqrt_square(k: int)
    requires
        0 <= k,
    ensures
        spec_isqrt(k * k) == k,
{
    assert(k * k < (k + 1) * (k + 1)) by (nonlinear_arith)
        requires
            0 <= k,
    ;
    lemma_isqrt_unique(k * k, k);
}

/// Integer square root: the largest `r` with `r * r <= n`.
pub fn isqrt(n: u64) -> (r: u64)
    requires
        n < 0x4000_0000_0000_0000,
    ensures
        r * r <= n < (r + 1) * (r + 1),
        r < 0x8000_0000,
        r == spec_isqrt(n as int),
{
    let mut lo: u64 = 0;
    let mut hi: u64 = 0x8000_0000;
    while lo + 1 < hi
        invariant
            lo < hi <= 0x8000_0000,
            lo * lo <= n,
            n < hi * hi,
        decreases hi - lo,
    {
        let mid: u64 = lo + (hi - lo) / 2;
        proof {
            assert(mid < 0x8000_0000);
            assert(mid * mid < 0x4000_0000_0000_0000) by (nonlinear_arith)
                requires
                    mid < 0x8000_0000,
            ;
        }
        if mid * mid <= n {
            lo = mid;
        } else {
            hi = mid;
        }
    }
    proof {
        assert(hi == lo + 1);
        lemma_isqrt_unique(n as int, lo as int);
    }
    lo
}

} // verus!
