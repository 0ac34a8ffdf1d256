//! Fixed-point plane and space vectors, and the quaternions that carry
//! the craft's orientation.

use vstd::prelude::*;

verus! {

use crate::fixed::{
    SCALE,
    LIMIT,
    spec_mul_fix,
    spec_div_fix,
    spec_isqrt,
    mul_fix_b,
    div_fix,
    isqrt,
    lemma_isqrt_exists,
};
use crate::trig::{spec_sin, spec_cos, sin_fp, cos_fp, TRIG_BOUND};

/// A plane vector in milli-units.
#[derive(Clone, Copy, Debug, PartialEq, Eq, Structural)]
pub struct Vec2Fix {
    pub x: i64,
    pub y: i64,
}

/// A space vector in milli-units.
#[derive(Clone, Copy, Debug, PartialEq, Eq, Structural)]
pub struct Vec3Fix {
    pub x: i64,
    pub y: i64,
    pub z: i64,
}

impl Vec2Fix {
    pub open spec fn wf(self) -> bool {
        &&& -LIMIT <= self.x <= LIMIT
        &&& -LIMIT <= self.y <= LIMIT
    }

    pub fn zero() -> (r: Vec2Fix)
        ensures
            r == (Vec2Fix { x: 0, y: 0 }),
    {
        Vec2Fix { x: 0, y: 0 }
    }
}

impl Vec3Fix {
    pub open spec fn wf(self) -> bool {
        &&& -LIMIT <= self.x <= LIMIT
        &&& -LIMIT <= self.y <= LIMIT
        &&& -LIMIT <= self.z <= LIMIT
    }

    pub fn zero() -> (r: Vec3Fix)
        ensures
            r == (Vec3Fix { x: 0, y: 0, z: 0 }),
    {
        Vec3Fix { x: 0, y: 0, z: 0 }
    }
}

/// An orientation quaternion in milli-units. A freshly normalized
/// quaternion keeps every component within `SCALE`.
#[derive(Clone, Copy, Debug, PartialEq, Eq, Structural)]
pub struct QuatFix {
    pub x: i64,
    pub y: i64,
    pub z: i64,
    pub w: i64,
}

impl QuatFix {
    /// Components within the range a normalized quaternion keeps.
    pub open spec fn unit_wf(self) -> bool {
        &&& -SCALE <= self.x <= SCALE
        &&& -SCALE <= self.y <= SCALE
        &&& -SCALE <= self.z <= SCALE
        &&& -SCALE <= self.w <= SCALE
    }

    pub fn identity() -> (r: QuatFix)
        ensures
            r == (QuatFix { x: 0, y: 0, z: 0, w: SCALE }),
            r.unit_wf(),
    {
        QuatFix { x: 0, y: 0, z: 0, w: SCALE }
    }
}

/// The Hamilton product in fixed point.
pub open spec fn spec_quat_mul(a: QuatFix, b: QuatFix) -> QuatFix {
    QuatFix {
        w: (spec_mul_fix(a.w as int, b.w as int) - spec_mul_fix(a.x as int, b.x as int)
            - spec_mul_fix(a.y as int, b.y as int) - spec_mul_fix(a.z as int, b.z as int)) as i64,
        x: (spec_mul_fix(a.w as int, b.x as int) + spec_mul_fix(a.x as int, b.w as int)
            + spec_mul_fix(a.y as int, b.z as int) - spec_mul_fix(a.z as int, b.y as int)) as i64,
        y: (spec_mul_fix(a.w as int, b.y as int) - spec_mul_fix(a.x as int, b.z as int)
            + spec_mul_fix(a.y as int, b.w as int) + spec_mul_fix(a.z as int, b.x as int)) as i64,
        z: (spec_mul_fix(a.w as int, b.z as int) + spec_mul_fix(a.x as int, b.y as int)
            - spec_mul_fix(a.y as int, b.x as int) + spec_mul_fix(a.z as int, b.w as int)) as i64,
    }
}

/// Hamilton product, with ghost bounds on the factors' components.
pub fn quat_mul(a: QuatFix, b: QuatFix, Ghost(ma): Ghost<int>, Ghost(mb): Ghost<int>) -> (r:
    QuatFix)
    requires
        0 <= ma,
        0 <= mb,
        ma * mb <= 0x7fff_ffff_ffff_ffff,
        -ma <= a.x <= ma,
        -ma <= a.y <= ma,
        -ma <= a.z <= ma,
        -ma <= a.w <= ma,
        -mb <= b.x <= mb,
        -mb <= b.y <= mb,
        -mb <= b.z <= mb,
        -mb <= b.w <= mb,
    ensures
        r == spec_quat_mul(a, b),
        -(4 * ((ma * mb) / (SCALE as int))) <= r.x <= 4 * ((ma * mb) / (SCALE as int)),
        -(4 * ((ma * mb) / (SCALE as int))) <= r.y <= 4 * ((ma * mb) / (SCALE as int)),
        -(4 * ((ma * mb) / (SCALE as int))) <= r.z <= 4 * ((ma * mb) / (SCALE as int)),
        -(4 * ((ma * mb) / (SCALE as int))) <= r.w <= 4 * ((ma * mb) / (SCALE as int)),
{
    let w: i64 = mul_fix_b(a.w, b.w, Ghost(ma), Ghost(mb)) - mul_fix_b(
        a.x,
        b.x,
        Ghost(ma),
        Ghost(mb),
    ) - mul_fix_b(a.y, b.y, Ghost(ma), Ghost(mb)) - mul_fix_b(a.z, b.z, Ghost(ma), Ghost(mb));
    let x: i64 = mul_fix_b(a.w, b.x, Ghost(ma), Ghost(mb)) + mul_fix_b(
        a.x,
        b.w,
        Ghost(ma),
        Ghost(mb),
    ) + mul_fix_b(a.y, b.z, Ghost(ma), Ghost(mb)) - mul_fix_b(a.z, b.y, Ghost(ma), Ghost(mb));
    let y: i64 = mul_fix_b(a.w, b.y, Ghost(ma), Ghost(mb)) - mul_fix_b(
        a.x,
        b.z,
        Ghost(ma),
        Ghost(mb),
    ) + mul_fix_b(a.y, b.w, Ghost(ma), Ghost(mb)) + mul_fix_b(a.z, b.x, Ghost(ma), Ghost(mb));
    let z: i64 = mul_fix_b(a.w, b.z, Ghost(ma), Ghost(mb)) + mul_fix_b(
        a.x,
        b.y,
        Ghost(ma),
        Ghost(mb),
    ) - mul_fix_b(a.y, b.x, Ghost(ma), Ghost(mb)) + mul_fix_b(a.z, b.w, Ghost(ma), Ghost(mb));
    QuatFix { x, y, z, w }
}

/// Rotation of a vector by a quaternion: `v + w t + u x t` over
/// `t = 2 (u x v)`, the quaternion sandwich for a unit quaternion.
pub open spec fn spec_rotate_vec(q: QuatFix, v: Vec3Fix) -> Vec3Fix {
    let tx = 2 * (spec_mul_fix(q.y as int, v.z as int) - spec_mul_fix(q.z as int, v.y as int));
    let ty = 2 * (spec_mul_fix(q.z as int, v.x as int) - spec_mul_fix(q.x as int, v.z as int));
    let tz = 2 * (spec_mul_fix(q.x as int, v.y as int) - spec_mul_fix(q.y as int, v.x as int));
    Vec3Fix {
        x: (v.x + spec_mul_fix(q.w as int, tx) + spec_mul_fix(q.y as int, tz) - spec_mul_fix(
            q.z as int,
            ty,
        )) as i64,
        y: (v.y + spec_mul_fix(q.w as int, ty) + spec_mul_fix(q.z as int, tx) - spec_mul_fix(
            q.x as int,
            tz,
        )) as i64,
        z: (v.z + spec_mul_fix(q.w as int, tz) + spec_mul_fix(q.x as int, ty) - spec_mul_fix(
            q.y as int,
            tx,
        )) as i64,
    }
}

/// Rotates a vector by a quaternion whose components stay within twice
/// the unit range, for a vector within twice the unit range.
pub fn rotate_vec(q: QuatFix, v: Vec3Fix) -> (r: Vec3Fix)
    requires
        -2 * SCALE <= q.x <= 2 * SCALE,
        -2 * SCALE <= q.y <= 2 * SCALE,
        -2 * SCALE <= q.z <= 2 * SCALE,
        -2 * SCALE <= q.w <= 2 * SCALE,
        -2 * SCALE <= v.x <= 2 * SCALE,
        -2 * SCALE <= v.y <= 2 * SCALE,
        -2 * SCALE <= v.z <= 2 * SCALE,
    ensures
        r == spec_rotate_vec(q, v),
        -98_000 <= r.x <= 98_000,
        -98_000 <= r.y <= 98_000,
        -98_000 <= r.z <= 98_000,
{
    let tx: i64 = 2 * (mul_fix_b(q.y, v.z, Ghost(2_000), Ghost(2_000)) - mul_fix_b(
        q.z,
        v.y,
        Ghost(2_000),
        Ghost(2_000),
    ));
    let ty: i64 = 2 * (mul_fix_b(q.z, v.x, Ghost(2_000), Ghost(2_000)) - mul_fix_b(
        q.x,
        v.z,
        Ghost(2_000),
        Ghost(2_000),
    ));
    let tz: i64 = 2 * (mul_fix_b(q.x, v.y, Ghost(2_000), Ghost(2_000)) - mul_fix_b(
        q.y,
        v.x,
        Ghost(2_000),
        Ghost(2_000),
    ));
    let x: i64 = v.x + mul_fix_b(q.w, tx, Ghost(2_000), Ghost(16_000)) + mul_fix_b(
        q.y,
        tz,
        Ghost(2_000),
        Ghost(16_000),
    ) - mul_fix_b(q.z, ty, Ghost(2_000), Ghost(16_000));
    let y: i64 = v.y + mul_fix_b(q.w, ty, Ghost(2_000), Ghost(16_000)) + mul_fix_b(
        q.z,
        tx,
        Ghost(2_000),
        Ghost(16_000),
    ) - mul_fix_b(q.x, tz, Ghost(2_000), Ghost(16_000));
    let z: i64 = v.z + mul_fix_b(q.w, tz, Ghost(2_000), Ghost(16_000)) + mul_fix_b(
        q.x,
        ty,
        Ghost(2_000),
        Ghost(16_000),
    ) - mul_fix_b(q.y, tx, Ghost(2_000), Ghost(16_000));
    Vec3Fix { x, y, z }
}

/// The orientation increment for body-frame rotations about the three
/// axes in turn: the axis quaternions of the half angles, composed in
/// x, y, z order.
pub open spec fn spec_from_euler(ax: int, ay: int, az: int) -> QuatFix {
    let qx = QuatFix {
        x: spec_sin(crate::fixed::div_trunc(ax, 2)) as i64,
        y: 0,
        z: 0,
        w: spec_cos(crate::fixed::div_trunc(ax, 2)) as i64,
    };
    let qy = QuatFix {
        x: 0,
        y: spec_sin(crate::fixed::div_trunc(ay, 2)) as i64,
        z: 0,
        w: spec_cos(crate::fixed::div_trunc(ay, 2)) as i64,
    };
    let qz = QuatFix {
        x: 0,
        y: 0,
        z: spec_sin(crate::fixed::div_trunc(az, 2)) as i64,
        w: spec_cos(crate::fixed::div_trunc(az, 2)) as i64,
    };
    spec_quat_mul(spec_quat_mul(qx, qy), qz)
}

pub fn from_euler(ax: i64, ay: i64, az: i64) -> (r: QuatFix)
    ensures
        r == spec_from_euler(ax as int, ay as int, az as int),
        -80_000 <= r.x <= 80_000,
        -80_000 <= r.y <= 80_000,
        -80_000 <= r.z <= 80_000,
        -80_000 <= r.w <= 80_000,
{
    let hx: i64 = ax / 2;
    let hy: i64 = ay / 2;
    let hz: i64 = az / 2;
    let qx = QuatFix { x: sin_fp(hx), y: 0, z: 0, w: cos_fp(hx) };
    let qy = QuatFix { x: 0, y: sin_fp(hy), z: 0, w: cos_fp(hy) };
    let qz = QuatFix { x: 0, y: 0, z: sin_fp(hz), w: cos_fp(hz) };
    let qxy = quat_mul(qx, qy, Ghost(TRIG_BOUND as int), Ghost(TRIG_BOUND as int));
    quat_mul(qxy, qz, Ghost(11_560), Ghost(TRIG_BOUND as int))
}

/// Scaling back onto the unit sphere: each component is divided by the
/// integer norm. The zero quaternion normalizes to the identity.
pub open spec fn spec_quat_normalize(q: QuatFix) -> QuatFix {
    let n = spec_isqrt(
        q.x * q.x + q.y * q.y + q.z * q.z + q.w * q.w,
    );
    if n == 0 {
        QuatFix { x: 0, y: 0, z: 0, w: SCALE }
    } else {
        QuatFix {
            x: spec_div_fix(q.x as int, n) as i64,
            y: spec_div_fix(q.y as int, n) as i64,
            z: spec_div_fix(q.z as int, n) as i64,
            w: spec_div_fix(q.w as int, n) as i64,
        }
    }
}

pub fn quat_normalize(q: QuatFix) -> (r: QuatFix)
    requires
        -2_000_000 <= q.x <= 2_000_000,
        -2_000_000 <= q.y <= 2_000_000,
        -2_000_000 <= q.z <= 2_000_000,
        -2_000_000 <= q.w <= 2_000_000,
    ensures
        r == spec_quat_normalize(q),
        r.unit_wf(),
{
    proof {
        lemma_square_bounds(q.x as int, 2_000_000);
        lemma_square_bounds(q.y as int, 2_000_000);
        lemma_square_bounds(q.z as int, 2_000_000);
        lemma_square_bounds(q.w as int, 2_000_000);
    }
    let xx: i64 = q.x * q.x;
    let yy: i64 = q.y * q.y;
    let zz: i64 = q.z * q.z;
    let ww: i64 = q.w * q.w;
    let n2: i64 = xx + yy + zz + ww;
    let n: i64 = isqrt(n2 as u64) as i64;
    if n == 0 {
        QuatFix { x: 0, y: 0, z: 0, w: SCALE }
    } else {
        proof {
            lemma_component_le_norm(q.x as int, n2 as int, n as int);
            lemma_component_le_norm(q.y as int, n2 as int, n as int);
            lemma_component_le_norm(q.z as int, n2 as int, n as int);
            lemma_component_le_norm(q.w as int, n2 as int, n as int);
        }
        QuatFix {
            x: norm_div(q.x, n),
            y: norm_div(q.y, n),
            z: norm_div(q.z, n),
            w: norm_div(q.w, n),
        }
    }
}

/// A square of a bounded value is non-negative and bounded.
proof fn lemma_square_bounds(a: int, m: int)
    requires
        0 <= m,
        -m <= a <= m,
    ensures
        0 <= a * a <= m * m,
{
    assert(0 <= a * a <= m * m) by (nonlinear_arith)
        requires
            0 <= m,
            -m <= a <= m,
    ;
}

/// A component whose square is within the squared norm is within the
/// integer norm.
proof fn lemma_component_le_norm(c: int, n2: int, n: int)
    requires
        c * c <= n2,
        crate::fixed::is_isqrt(n2, n),
    ensures
        -n <= c <= n,
{
    if c > n || c < -n {
        assert((n + 1) * (n + 1) <= c * c) by (nonlinear_arith)
            requires
                0 <= n,
                c > n || c < -n,
        ;
    }
}

/// One normalized component: `c * SCALE / n`, within the unit range
/// whenever `|c| <= n`.
fn norm_div(c: i64, n: i64) -> (r: i64)
    requires
        0 < n <= 0x7fff_ffff,
        -n <= c <= n,
    ensures
        r == spec_div_fix(c as int, n as int),
        -SCALE <= r <= SCALE,
{
    proof {
        assert(-(n * (SCALE as int)) <= c * (SCALE as int) <= n * (SCALE as int))
            by (nonlinear_arith)
            requires
                -n <= c <= n,
                SCALE > 0,
        ;
        crate::fixed::lemma_div_trunc_bound(
            c as int * (SCALE as int),
            n as int,
            n as int * (SCALE as int),
        );
        vstd::arithmetic::div_mod::lemma_div_multiples_vanish(SCALE as int, n as int);
    }
    div_fix(c, n)
}

} // verus!
