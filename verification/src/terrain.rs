//! The height map: a square grid of terrain heights, and the carving
//! of a flat, smoothly blended landing zone into it.
//!
//! Heights are milli-metres; grid cells are one metre apart. The carve
//! contract pins every cell: inside the flat disk the height is exactly
//! the centre height, across the blend annulus it is the stated linear
//! interpolation, and beyond the blend radius nothing changes.

use vstd::prelude::*;

verus! {

use crate::fixed::{
    SCALE,
    LIMIT,
    spec_clamp,
    spec_isqrt,
    div_trunc,
    clamp_fix,
    isqrt,
    lemma_isqrt_monotone,
    lemma_isqrt_square,
    lemma_div_trunc_bound,
};
use crate::fixed::mul_fix_b;
use crate::geom::Vec3Fix;
use crate::rng::rng_next_u64;
use crate::trig::{cos_fp, sin_fp, TAU_FP};

/// Largest grid width the carving routines accept.
pub const MAX_WIDTH: u32 = 40_000;

/// Largest flat-zone radius, in cells.
pub const MAX_ZONE_RADIUS: u32 = 400;

/// Cells beyond the flat radius over which the blend runs.
pub const BLEND_MARGIN: u32 = 3;

/// A square map of height values.
#[derive(Clone, Debug)]
pub struct HeightMap {
    pub width: u32,
    pub z: Vec<i64>,
}

/// The height at one grid cell.
pub open spec fn spec_at(m: HeightMap, ix: int, iy: int) -> int {
    m.z@[ix * m.width + iy] as int
}

/// The blend parameter: zero through the flat disk, one from the blend
/// radius outward, linear in the distance across the annulus. Distances
/// are in milli-cells.
pub open spec fn spec_blend_t(dist: int, radius: int) -> int {
    spec_clamp(div_trunc(dist - radius * SCALE, 2), 0, SCALE as int)
}

/// The blend of the centre height toward the original height.
pub open spec fn spec_lerp(t: int, a: int, b: int) -> int {
    div_trunc((SCALE - t) * a + t * b, SCALE as int)
}

/// The fixed-point planar distance of a cell from the zone centre.
pub open spec fn spec_cell_dist(cx: int, cy: int, ix: int, iy: int) -> int {
    spec_isqrt(((ix - cx) * (ix - cx) + (iy - cy) * (iy - cy)) * 1_000_000)
}

/// One cell's height after the zone at `(cx, cy)` with the given flat
/// radius is carved into `m`.
pub open spec fn spec_carved_height(m: HeightMap, cx: int, cy: int, radius: int, ix: int, iy: int)
    -> int {
    let cz = spec_at(m, cx, cy);
    let dist = spec_cell_dist(cx, cy, ix, iy);
    if dist <= (radius + BLEND_MARGIN) * SCALE {
        spec_lerp(spec_blend_t(dist, radius), cz, spec_at(m, ix, iy))
    } else {
        spec_at(m, ix, iy)
    }
}

/// A cell index is in range.
pub proof fn lemma_grid_index(w: int, ix: int, iy: int)
    requires
        0 <= ix < w,
        0 <= iy < w,
    ensures
        0 <= ix * w + iy < w * w,
{
    assert(0 <= ix * w + iy < w * w) by (nonlinear_arith)
        requires
            0 <= ix < w,
            0 <= iy < w,
    ;
}

/// Distinct cells use distinct indices.
proof fn lemma_grid_index_injective(w: int, ix1: int, iy1: int, ix2: int, iy2: int)
    requires
        0 <= ix1 < w,
        0 <= iy1 < w,
        0 <= ix2 < w,
        0 <= iy2 < w,
        ix1 * w + iy1 == ix2 * w + iy2,
    ensures
        ix1 == ix2,
        iy1 == iy2,
{
    assert(ix1 == ix2 && iy1 == iy2) by (nonlinear_arith)
        requires
            0 <= ix1 < w,
            0 <= iy1 < w,
            0 <= ix2 < w,
            0 <= iy2 < w,
            ix1 * w + iy1 == ix2 * w + iy2,
    ;
}

/// A cell more than the blend radius away on either axis is beyond the
/// blend distance.
proof fn lemma_outside_window_far(cx: int, cy: int, ix: int, iy: int, blend: int)
    requires
        0 <= blend,
        (ix - cx > blend) || (cx - ix > blend) || (iy - cy > blend) || (cy - iy > blend),
    ensures
        spec_cell_dist(cx, cy, ix, iy) > blend * SCALE,
{
    let dx = ix - cx;
    let dy = iy - cy;
    let d2 = dx * dx + dy * dy;
    assert(d2 >= (blend + 1) * (blend + 1)) by (nonlinear_arith)
        requires
            0 <= blend,
            (dx > blend) || (-dx > blend) || (dy > blend) || (-dy > blend),
            d2 == dx * dx + dy * dy,
    ;
    let b1 = (blend + 1) * SCALE;
    assert(b1 * b1 == (blend + 1) * (blend + 1) * 1_000_000) by (nonlinear_arith)
        requires
            b1 == (blend + 1) * SCALE,
            SCALE == 1000,
    ;
    assert((blend + 1) * (blend + 1) * 1_000_000 <= d2 * 1_000_000) by (nonlinear_arith)
        requires
            (blend + 1) * (blend + 1) <= d2,
    ;
    lemma_isqrt_square(b1);
    lemma_isqrt_monotone(b1 * b1, d2 * 1_000_000);
    assert(blend * SCALE < b1);
}

/// The blend parameter never falls as the distance grows: the
/// transition across the annulus is monotonic.
pub proof fn lemma_blend_monotone(d1: int, d2: int, radius: int)
    requires
        d1 <= d2,
    ensures
        spec_blend_t(d1, radius) <= spec_blend_t(d2, radius),
{
    let a = d1 - radius * SCALE;
    let b = d2 - radius * SCALE;
    if a >= 0 {
        vstd::arithmetic::div_mod::lemma_div_is_ordered(a, b, 2);
    } else if b < 0 {
        vstd::arithmetic::div_mod::lemma_div_is_ordered(-b, -a, 2);
    } else {
        vstd::arithmetic::div_mod::lemma_div_pos_is_pos(-a, 2);
        vstd::arithmetic::div_mod::lemma_div_pos_is_pos(b, 2);
    }
}

/// Across the annulus, a cell farther from the centre never blends
/// less toward the original terrain than a nearer one.
pub proof fn lemma_cell_blend_monotone(
    cx: int,
    cy: int,
    ix1: int,
    iy1: int,
    ix2: int,
    iy2: int,
    radius: int,
)
    requires
        (ix1 - cx) * (ix1 - cx) + (iy1 - cy) * (iy1 - cy) <= (ix2 - cx) * (ix2 - cx) + (iy2 - cy)
            * (iy2 - cy),
    ensures
        spec_blend_t(spec_cell_dist(cx, cy, ix1, iy1), radius) <= spec_blend_t(
            spec_cell_dist(cx, cy, ix2, iy2),
            radius,
        ),
{
    let d2a = (ix1 - cx) * (ix1 - cx) + (iy1 - cy) * (iy1 - cy);
    let d2b = (ix2 - cx) * (ix2 - cx) + (iy2 - cy) * (iy2 - cy);
    assert(0 <= (ix1 - cx) * (ix1 - cx) + (iy1 - cy) * (iy1 - cy)) by (nonlinear_arith);
    assert(d2a * 1_000_000 <= d2b * 1_000_000) by (nonlinear_arith)
        requires
            d2a <= d2b,
    ;
    lemma_isqrt_monotone(d2a * 1_000_000, d2b * 1_000_000);
    lemma_blend_monotone(
        spec_cell_dist(cx, cy, ix1, iy1),
        spec_cell_dist(cx, cy, ix2, iy2),
        radius,
    );
}

/// Within the flat disk the carved height is exactly the centre height.
pub proof fn lemma_carve_flat(m: HeightMap, cx: int, cy: int, radius: int, ix: int, iy: int)
    requires
        0 <= radius,
        -LIMIT <= spec_at(m, cx, cy) <= LIMIT,
        (ix - cx) * (ix - cx) + (iy - cy) * (iy - cy) <= radius * radius,
    ensures
        spec_carved_height(m, cx, cy, radius, ix, iy) == spec_at(m, cx, cy),
{
    let d2 = (ix - cx) * (ix - cx) + (iy - cy) * (iy - cy);
    let rs = radius * SCALE;
    assert(d2 * 1_000_000 <= rs * rs) by (nonlinear_arith)
        requires
            d2 <= radius * radius,
            rs == radius * SCALE,
            SCALE == 1000,
    ;
    assert(0 <= (ix - cx) * (ix - cx) + (iy - cy) * (iy - cy)) by (nonlinear_arith);
    lemma_isqrt_square(rs);
    lemma_isqrt_monotone(d2 * 1_000_000, rs * rs);
    let dist = spec_cell_dist(cx, cy, ix, iy);
    crate::fixed::lemma_isqrt_exists(d2 * 1_000_000);
    assert(dist <= rs);
    assert(0 <= radius * SCALE) by (nonlinear_arith)
        requires
            0 <= radius,
            SCALE == 1000,
    ;
    assert(dist <= (radius + BLEND_MARGIN) * SCALE) by (nonlinear_arith)
        requires
            dist <= radius * SCALE,
            SCALE == 1000,
            0 <= radius,
    ;
    assert(spec_blend_t(dist, radius) == 0) by {
        if dist < rs {
            vstd::arithmetic::div_mod::lemma_div_pos_is_pos(rs - dist, 2);
        } else {
            vstd::arithmetic::div_mod::lemma_div_of0(2);
        }
    }
    let cz = spec_at(m, cx, cy);
    assert(spec_lerp(0, cz, spec_at(m, ix, iy)) == cz) by {
        assert((SCALE - 0) * cz + 0 * spec_at(m, ix, iy) == SCALE * cz);
        vstd::arithmetic::div_mod::lemma_div_multiples_vanish(cz, SCALE as int);
    }
}

/// At or beyond the blend radius the carved height is the original
/// height: either the cell lies past the blend distance, or it sits
/// exactly on it, where the blend parameter has already reached one.
pub proof fn lemma_carve_far(m: HeightMap, cx: int, cy: int, radius: int, ix: int, iy: int)
    requires
        0 <= radius <= MAX_ZONE_RADIUS,
        -LIMIT <= spec_at(m, ix, iy) <= LIMIT,
        (ix - cx) * (ix - cx) + (iy - cy) * (iy - cy) >= (radius + BLEND_MARGIN) * (radius
            + BLEND_MARGIN),
    ensures
        spec_carved_height(m, cx, cy, radius, ix, iy) == spec_at(m, ix, iy),
{
    let d2 = (ix - cx) * (ix - cx) + (iy - cy) * (iy - cy);
    let blend = radius + BLEND_MARGIN;
    let bs = blend * SCALE;
    let dist = spec_cell_dist(cx, cy, ix, iy);
    assert(0 <= (ix - cx) * (ix - cx) + (iy - cy) * (iy - cy)) by (nonlinear_arith);
    crate::fixed::lemma_isqrt_exists(d2 * 1_000_000);
    if d2 == blend * blend {
        assert(d2 * 1_000_000 == bs * bs) by (nonlinear_arith)
            requires
                d2 == blend * blend,
                bs == blend * SCALE,
                SCALE == 1000,
        ;
        lemma_isqrt_square(bs);
        assert(dist == bs);
        assert(spec_blend_t(dist, radius) == SCALE) by {
            assert(dist - radius * SCALE == 3_000) by (nonlinear_arith)
                requires
                    dist == (radius + 3) * SCALE,
                    SCALE == 1000,
            ;
        }
        let zij = spec_at(m, ix, iy);
        assert(spec_lerp(SCALE as int, spec_at(m, cx, cy), zij) == zij) by {
            assert((SCALE - SCALE) * spec_at(m, cx, cy) + SCALE * zij == SCALE * zij);
            vstd::arithmetic::div_mod::lemma_div_multiples_vanish(zij, SCALE as int);
        }
    } else {
        // Strictly beyond the blend square: past the blend distance,
        // because a thousandth of a cell resolves the gap at any
        // radius the carving accepts.
        assert(d2 >= blend * blend + 1) by (nonlinear_arith)
            requires
                d2 >= blend * blend,
                d2 != blend * blend,
        ;
        assert(d2 * 1_000_000 >= (bs + 1) * (bs + 1)) by (nonlinear_arith)
            requires
                d2 >= blend * blend + 1,
                bs == blend * SCALE,
                SCALE == 1000,
                0 <= blend <= 403,
        ;
        assert(0 <= bs + 1) by (nonlinear_arith)
            requires
                0 <= blend,
                bs == blend * SCALE,
                SCALE == 1000,
        ;
        lemma_isqrt_square(bs + 1);
        lemma_isqrt_monotone((bs + 1) * (bs + 1), d2 * 1_000_000);
        assert(dist > bs);
    }
}

/// The angle one draw selects, in milli-radians.
pub open spec fn spec_drawn_angle(a: u64) -> int {
    (a as int) % (TAU_FP as int)
}

/// The zone distance one draw selects, in whole cells: uniform over
/// `[min_distance, max_distance)`, or `min_distance` itself when the
/// range is empty.
pub open spec fn spec_drawn_length(d: u64, min_distance: int, max_distance: int) -> int {
    if max_distance == min_distance {
        min_distance
    } else {
        min_distance + (d as int) % (max_distance - min_distance)
    }
}

/// One axis of the drawn zone centre: the grid centre offset by the
/// drawn distance along the drawn angle, clamped onto the grid.
pub open spec fn spec_zone_center_axis(w: int, trig: int, len: int) -> int {
    spec_clamp(
        div_trunc(w * 500 + crate::fixed::spec_mul_fix(len * SCALE, trig), SCALE as int),
        0,
        w - 1,
    )
}

/// Everything one pair of draws determines about a random carve: the
/// centre cell from the drawn angle and distance, the returned centre,
/// and every cell of the carved map.
pub open spec fn spec_random_zone_outcome(
    m0: HeightMap,
    m1: HeightMap,
    r: Vec3Fix,
    a: u64,
    d: u64,
    min_distance: int,
    max_distance: int,
    radius: int,
) -> bool {
    let w = m0.width as int;
    let len = spec_drawn_length(d, min_distance, max_distance);
    let cx = spec_zone_center_axis(w, crate::trig::spec_cos(spec_drawn_angle(a)), len);
    let cy = spec_zone_center_axis(w, crate::trig::spec_sin(spec_drawn_angle(a)), len);
    &&& 0 <= cx < w
    &&& 0 <= cy < w
    &&& r.x == cx * SCALE
    &&& r.y == cy * SCALE
    &&& r.z == spec_at(m0, cx, cy)
    &&& forall|ix: int, iy: int|
        0 <= ix < w && 0 <= iy < w ==> spec_at(m1, ix, iy) == #[trigger] spec_carved_height(
            m0,
            cx,
            cy,
            radius,
            ix,
            iy,
        )
}

impl HeightMap {
    pub open spec fn wf(self) -> bool {
        &&& self.width <= MAX_WIDTH
        &&& self.z@.len() == self.width * self.width
        &&& forall|k: int| 0 <= k < self.z@.len() ==> -LIMIT <= #[trigger] self.z@[k] <= LIMIT
    }

    /// A height map over a pre-sampled grid of heights.
    pub fn new(width: u32, z: Vec<i64>) -> (r: HeightMap)
        requires
            width <= MAX_WIDTH,
            z@.len() == width * width,
            forall|k: int| 0 <= k < z@.len() ==> -LIMIT <= #[trigger] z@[k] <= LIMIT,
        ensures
            r.width == width,
            r.z == z,
            r.wf(),
    {
        HeightMap { width, z }
    }

    pub fn width(&self) -> (r: u32)
        ensures
            r == self.width,
    {
        self.width
    }

    pub fn depth(&self) -> (r: u32)
        ensures
            r == self.width,
    {
        self.width
    }

    /// The grid centre, in milli-metres.
    pub fn center(&self) -> (r: Vec3Fix)
        requires
            self.wf(),
        ensures
            r.x == 500 * self.width,
            r.y == 500 * self.width,
            r.z == 0,
            r.wf(),
    {
        let half: i64 = (self.width as i64) * 500;
        Vec3Fix { x: half, y: half, z: 0 }
    }

    pub fn get(&self, ix: u32, iy: u32) -> (r: i64)
        requires
            self.wf(),
            ix < self.width,
            iy < self.width,
        ensures
            r == spec_at(*self, ix as int, iy as int),
            -LIMIT <= r <= LIMIT,
    {
        proof {
            lemma_grid_index(self.width as int, ix as int, iy as int);
            assert((self.width as int) * (self.width as int) <= 1_600_000_000)
                by (nonlinear_arith)
                requires
                    self.width <= 40_000,
            ;
        }
        let idx: usize = (ix as usize) * (self.width as usize) + (iy as usize);
        self.z[idx]
    }

    fn set_cell(&mut self, ix: u32, iy: u32, v: i64)
        requires
            old(self).wf(),
            ix < old(self).width,
            iy < old(self).width,
            -LIMIT <= v <= LIMIT,
        ensures
            final(self).width == old(self).width,
            final(self).z@ == old(self).z@.update(ix as int * old(self).width + iy as int, v),
            final(self).wf(),
    {
        proof {
            lemma_grid_index(self.width as int, ix as int, iy as int);
            assert((self.width as int) * (self.width as int) <= 1_600_000_000)
                by (nonlinear_arith)
                requires
                    self.width <= 40_000,
            ;
        }
        let idx: usize = (ix as usize) * (self.width as usize) + (iy as usize);
        self.z[idx] = v;
    }

    /// Carves the landing zone: a flat disk at the centre height, and a
    /// linear blend back to the original terrain across the annulus.
    /// Iteration near the grid edge silently truncates to valid
    /// indices, so the blend there may be asymmetric.
    #[verifier::rlimit(100)]
    pub fn create_landing_zone(&mut self, center_x: u32, center_y: u32, radius: u32) -> (r:
        Vec3Fix)
        requires
            old(self).wf(),
            center_x < old(self).width,
            center_y < old(self).width,
            radius <= MAX_ZONE_RADIUS,
        ensures
            final(self).wf(),
            final(self).width == old(self).width,
            forall|ix: int, iy: int|
                0 <= ix < old(self).width && 0 <= iy < old(self).width
                    ==> #[trigger] spec_at(*final(self), ix, iy) == spec_carved_height(
                    *old(self),
                    center_x as int,
                    center_y as int,
                    radius as int,
                    ix,
                    iy,
                ),
            r.x == center_x * SCALE,
            r.y == center_y * SCALE,
            r.z == spec_at(*old(self), center_x as int, center_y as int),
            r.wf(),
    {
        let ghost m0 = *self;
        let w: u32 = self.width;
        let cz: i64 = self.get(center_x, center_y);
        let blend: u32 = radius + BLEND_MARGIN;
        let lo_x: u32 = if center_x > blend {
            center_x - blend
        } else {
            0
        };
        let hi_x: u32 = if center_x + blend <= w - 1 {
            center_x + blend
        } else {
            w - 1
        };
        let lo_y: u32 = if center_y > blend {
            center_y - blend
        } else {
            0
        };
        let hi_y: u32 = if center_y + blend <= w - 1 {
            center_y + blend
        } else {
            w - 1
        };
        let mut ix: u32 = lo_x;
        while ix <= hi_x
            invariant
                m0.wf(),
                self.width == w,
                w == m0.width,
                center_x < w,
                center_y < w,
                radius <= MAX_ZONE_RADIUS,
                blend == radius + BLEND_MARGIN,
                cz == spec_at(m0, center_x as int, center_y as int),
                -LIMIT <= cz <= LIMIT,
                lo_x == if center_x > blend { center_x - blend } else { 0 },
                hi_x as int == if center_x + blend <= w - 1 { center_x + blend } else { w - 1 },
                lo_y == if center_y > blend { center_y - blend } else { 0 },
                hi_y as int == if center_y + blend <= w - 1 { center_y + blend } else { w - 1 },
                lo_x <= ix <= hi_x + 1,
                self.wf(),
                forall|px: int, py: int|
                    0 <= px < w && 0 <= py < w ==> #[trigger] spec_at(*self, px, py) == if lo_x
                        <= px <= hi_x && lo_y <= py <= hi_y && px < ix {
                        spec_carved_height(
                            m0,
                            center_x as int,
                            center_y as int,
                            radius as int,
                            px,
                            py,
                        )
                    } else {
                        spec_at(m0, px, py)
                    },
            decreases hi_x + 1 - ix,
        {
            let mut iy: u32 = lo_y;
            while iy <= hi_y
                invariant
                    m0.wf(),
                    self.width == w,
                    w == m0.width,
                    center_x < w,
                    center_y < w,
                    radius <= MAX_ZONE_RADIUS,
                    blend == radius + BLEND_MARGIN,
                    cz == spec_at(m0, center_x as int, center_y as int),
                    -LIMIT <= cz <= LIMIT,
                    lo_x == if center_x > blend { center_x - blend } else { 0 },
                    hi_x as int == if center_x + blend <= w - 1 { center_x + blend } else { w - 1 },
                    lo_y == if center_y > blend { center_y - blend } else { 0 },
                    hi_y as int == if center_y + blend <= w - 1 { center_y + blend } else { w - 1 },
                    lo_x <= ix <= hi_x,
                    lo_y <= iy <= hi_y + 1,
                    self.wf(),
                    forall|px: int, py: int|
                        0 <= px < w && 0 <= py < w ==> #[trigger] spec_at(*self, px, py) == if lo_x
                            <= px <= hi_x && lo_y <= py <= hi_y && (px < ix || (px == ix && py
                            < iy)) {
                            spec_carved_height(
                                m0,
                                center_x as int,
                                center_y as int,
                                radius as int,
                                px,
                                py,
                            )
                        } else {
                            spec_at(m0, px, py)
                        },
                decreases hi_y + 1 - iy,
            {
                let dx: i64 = (ix as i64) - (center_x as i64);
                let dy: i64 = (iy as i64) - (center_y as i64);
                proof {
                    assert(-403 <= dx <= 403);
                    assert(-403 <= dy <= 403);
                    assert(0 <= dx * dx <= 162_409) by (nonlinear_arith)
                        requires
                            -403 <= dx <= 403,
                    ;
                    assert(0 <= dy * dy <= 162_409) by (nonlinear_arith)
                        requires
                            -403 <= dy <= 403,
                    ;
                }
                let d2: i64 = dx * dx + dy * dy;
                let n: u64 = isqrt((d2 * 1_000_000) as u64);
                let dist: i64 = n as i64;
                let zij: i64 = self.get(ix, iy);
                let znew: i64 = if dist <= (blend as i64) * SCALE {
                    let shifted: i64 = dist - (radius as i64) * SCALE;
                    let t: i64 = clamp_fix(shifted / 2, 0, SCALE);
                    proof {
                        assert(-(SCALE as int) * LIMIT <= (SCALE - t) * cz <= (SCALE as int)
                            * LIMIT) by (nonlinear_arith)
                            requires
                                0 <= t <= SCALE,
                                -LIMIT <= cz <= LIMIT,
                        ;
                        assert(-(SCALE as int) * LIMIT <= t * zij <= (SCALE as int) * LIMIT)
                            by (nonlinear_arith)
                            requires
                                0 <= t <= SCALE,
                                -LIMIT <= zij <= LIMIT,
                        ;
                        assert(-(SCALE as int) * LIMIT <= (SCALE - t) * cz + t * zij <= (
                        SCALE as int) * LIMIT) by (nonlinear_arith)
                            requires
                                0 <= t <= SCALE,
                                -LIMIT <= cz <= LIMIT,
                                -LIMIT <= zij <= LIMIT,
                        ;
                        lemma_div_trunc_bound(
                            (SCALE - t) * cz + t * zij,
                            SCALE as int,
                            (SCALE as int) * LIMIT,
                        );
                        vstd::arithmetic::div_mod::lemma_div_multiples_vanish(
                            LIMIT as int,
                            SCALE as int,
                        );
                    }
                    let num: i64 = (SCALE - t) * cz + t * zij;
                    num / SCALE
                } else {
                    zij
                };
                let ghost entry = *self;
                self.set_cell(ix, iy, znew);
                proof {
                    lemma_grid_index(w as int, ix as int, iy as int);
                    assert(d2 == (ix as int - center_x as int) * (ix as int - center_x as int) + (
                    iy as int - center_y as int) * (iy as int - center_y as int));
                    assert((d2 * 1_000_000) as u64 == d2 * 1_000_000);
                    assert(dist == spec_cell_dist(
                        center_x as int,
                        center_y as int,
                        ix as int,
                        iy as int,
                    ));
                    assert(zij == spec_at(entry, ix as int, iy as int));
                    assert(zij == spec_at(m0, ix as int, iy as int));
                    assert(znew == spec_carved_height(
                        m0,
                        center_x as int,
                        center_y as int,
                        radius as int,
                        ix as int,
                        iy as int,
                    ));
                    assert(spec_at(*self, ix as int, iy as int) == znew);
                    assert forall|px: int, py: int|
                        0 <= px < w && 0 <= py < w implies #[trigger] spec_at(*self, px, py) == (
                    if lo_x <= px <= hi_x && lo_y <= py <= hi_y && (px < ix || (px == ix && py < iy
                        + 1)) {
                        spec_carved_height(
                            m0,
                            center_x as int,
                            center_y as int,
                            radius as int,
                            px,
                            py,
                        )
                    } else {
                        spec_at(m0, px, py)
                    }) by {
                        if !(px == ix && py == iy) {
                            lemma_grid_index(w as int, px, py);
                            if px * w + py == ix as int * w + iy as int {
                                lemma_grid_index_injective(w as int, px, py, ix as int, iy as int);
                            }
                            assert(spec_at(*self, px, py) == spec_at(entry, px, py));
                        }
                    }
                }
                iy = iy + 1;
            }
            ix = ix + 1;
        }
        proof {
            assert forall|px: int, py: int| 0 <= px < w && 0 <= py < w implies #[trigger] spec_at(
                *self,
                px,
                py,
            ) == spec_carved_height(
                m0,
                center_x as int,
                center_y as int,
                radius as int,
                px,
                py,
            ) by {
                if !(lo_x <= px <= hi_x && lo_y <= py <= hi_y) {
                    lemma_outside_window_far(center_x as int, center_y as int, px, py, blend as int);
                }
            }
        }
        Vec3Fix { x: (center_x as i64) * SCALE, y: (center_y as i64) * SCALE, z: cz }
    }

    /// Carves the zone at a random offset from the grid centre: a
    /// random angle, and a random distance between the two bounds.
    /// A centre that would fall off the grid is clamped onto it.
    pub fn create_random_landing_zone(
        &mut self,
        rng: &mut rand_chacha::ChaCha8Rng,
        min_distance: u32,
        max_distance: u32,
        radius: u32,
    ) -> (r: Vec3Fix)
        requires
            old(self).wf(),
            1 <= old(self).width,
            min_distance <= max_distance <= MAX_WIDTH,
            radius <= MAX_ZONE_RADIUS,
        ensures
            final(self).wf(),
            final(self).width == old(self).width,
            r.wf(),
            exists|a: u64, d: u64|
                #[trigger] spec_random_zone_outcome(
                    *old(self),
                    *final(self),
                    r,
                    a,
                    d,
                    min_distance as int,
                    max_distance as int,
                    radius as int,
                ),
    {
        let a: u64 = rng_next_u64(rng);
        let d: u64 = rng_next_u64(rng);
        let angle: i64 = (a % (TAU_FP as u64)) as i64;
        let span: u32 = max_distance - min_distance;
        let len: u32 = if span == 0 {
            min_distance
        } else {
            min_distance + ((d % (span as u64)) as u32)
        };
        let cos_a: i64 = cos_fp(angle);
        let sin_a: i64 = sin_fp(angle);
        let len_fp: i64 = (len as i64) * SCALE;
        let off_x: i64 = mul_fix_b(len_fp, cos_a, Ghost(40_000_000), Ghost(1_700));
        let off_y: i64 = mul_fix_b(len_fp, sin_a, Ghost(40_000_000), Ghost(1_700));
        let w: u32 = self.width;
        let half: i64 = (w as i64) * 500;
        let cx: u32 = clamp_fix((half + off_x) / SCALE, 0, (w - 1) as i64) as u32;
        let cy: u32 = clamp_fix((half + off_y) / SCALE, 0, (w - 1) as i64) as u32;
        proof {
            assert(angle == spec_drawn_angle(a));
            assert(len == spec_drawn_length(
                d,
                min_distance as int,
                max_distance as int,
            ));
            assert(cx == spec_zone_center_axis(
                w as int,
                crate::trig::spec_cos(spec_drawn_angle(a)),
                len as int,
            ));
            assert(cy == spec_zone_center_axis(
                w as int,
                crate::trig::spec_sin(spec_drawn_angle(a)),
                len as int,
            ));
        }
        let r = self.create_landing_zone(cx, cy, radius);
        proof {
            assert(spec_random_zone_outcome(
                *old(self),
                *self,
                r,
                a,
                d,
                min_distance as int,
                max_distance as int,
                radius as int,
            ));
        }
        r
    }
}

} // verus!
