//! The landscape of one round: the carved height map, the landing-zone
//! centre that was drawn for it, and where the lander starts.
//!
//! The height samples arrive pre-generated as plain milli-metre values;
//! this module carves the zone into them and derives the lander's start
//! position above the grid centre, in the landing zone's frame.

use vstd::prelude::*;

verus! {

use crate::fixed::SCALE;
use crate::geom::Vec3Fix;
use crate::params::Parameters;
use crate::terrain::{HeightMap, spec_at, spec_carved_height};

/// Height samples the landscape accepts, in milli-metres: far inside
/// the state range, so derived positions stay representable.
pub const MAX_TERRAIN_HEIGHT: i64 = 100_000_000;

pub struct Landscape {
    pub height_map: HeightMap,
    pub landing_zone_center: Vec3Fix,
    pub lander_init_position: Vec3Fix,
}

impl Landscape {
    /// Builds the round's landscape over pre-sampled heights: carves a
    /// landing zone at a random offset and places the lander above the
    /// grid centre, at the configured altitude, relative to the zone.
    pub fn new(rng: &mut rand_chacha::ChaCha8Rng, params: &Parameters, heights: Vec<i64>) -> (r:
        Landscape)
        requires
            params.wf(),
            heights@.len() == (params.landscape_width as int / SCALE as int) * (
            params.landscape_width as int / SCALE as int),
            forall|k: int|
                0 <= k < heights@.len() ==> -MAX_TERRAIN_HEIGHT <= #[trigger] heights@[k]
                    <= MAX_TERRAIN_HEIGHT,
        ensures
            r.height_map.wf(),
            r.height_map.width == params.landscape_width as int / SCALE as int,
            r.landing_zone_center.wf(),
            r.lander_init_position.wf(),
            r.lander_init_position.x == 500 * (r.height_map.width as int)
                - r.landing_zone_center.x,
            r.lander_init_position.y == 500 * (r.height_map.width as int)
                - r.landing_zone_center.y,
            r.lander_init_position.z == params.init_altitude - r.landing_zone_center.z,
            exists|cx: int, cy: int|
                {
                    &&& 0 <= cx < r.height_map.width
                    &&& 0 <= cy < r.height_map.width
                    &&& r.landing_zone_center.x == cx * SCALE
                    &&& r.landing_zone_center.y == cy * SCALE
                    &&& r.landing_zone_center.z == #[trigger] heights@[cx * r.height_map.width
                        + cy]
                    &&& forall|ix: int, iy: int|
                        0 <= ix < r.height_map.width && 0 <= iy < r.height_map.width
                            ==> spec_at(r.height_map, ix, iy) == #[trigger] spec_carved_height(
                            HeightMap { width: r.height_map.width, z: heights },
                            cx,
                            cy,
                            params.landing_zone_radius as int / SCALE as int,
                            ix,
                            iy,
                        )
                },
    {
        let width: u32 = params.landscape_width();
        let mut height_map: HeightMap = HeightMap::new(width, heights);
        let ghost m0 = height_map;
        let min_d: u32 = params.landing_zone_min_distance();
        let max_d: u32 = params.landing_zone_max_distance();
        let lo: u32 = if min_d <= max_d {
            min_d
        } else {
            max_d
        };
        let hi: u32 = if min_d <= max_d {
            max_d
        } else {
            min_d
        };
        let landing_zone_center: Vec3Fix = height_map.create_random_landing_zone(
            rng,
            lo,
            hi,
            params.landing_zone_radius(),
        );
        let half: i64 = (width as i64) * 500;
        let lander_init_position = Vec3Fix {
            x: half - landing_zone_center.x,
            y: half - landing_zone_center.y,
            z: params.lander_init_altitude() - landing_zone_center.z,
        };
        proof {
            let (a, d) = choose|a: u64, d: u64|
                #[trigger] crate::terrain::spec_random_zone_outcome(
                    m0,
                    height_map,
                    landing_zone_center,
                    a,
                    d,
                    lo as int,
                    hi as int,
                    params.landing_zone_radius as int / SCALE as int,
                );
            let w = m0.width as int;
            let len = crate::terrain::spec_drawn_length(d, lo as int, hi as int);
            let cx = crate::terrain::spec_zone_center_axis(
                w,
                crate::trig::spec_cos(crate::terrain::spec_drawn_angle(a)),
                len,
            );
            let cy = crate::terrain::spec_zone_center_axis(
                w,
                crate::trig::spec_sin(crate::terrain::spec_drawn_angle(a)),
                len,
            );
            crate::terrain::lemma_grid_index(w, cx, cy);
            assert(landing_zone_center.z == heights@[cx * m0.width + cy]);
        }
        Landscape { height_map, landing_zone_center, lander_init_position }
    }

    pub fn lander_init_position(&self) -> (r: Vec3Fix)
        ensures
            r == self.lander_init_position,
    {
        self.lander_init_position
    }
}

} // verus!
