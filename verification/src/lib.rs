//! Verified core of a lunar-lander simulation.
//!
//! The library models all physical quantities as `i64` counts of
//! thousandths (fixed-point, see [`fixed`]): flight dynamics, the
//! rate-of-descent PID controller, procedural terrain carving, input
//! conditioning and the landing evaluator are all executable code whose
//! behaviour is pinned down by contracts. Randomness enters only through
//! the narrow trusted wrappers in [`rng`]; everything downstream of a
//! drawn number is verified for every value it could take.

pub mod fixed;
pub mod geom;
pub mod input;
pub mod controller;
pub mod lander;
pub mod landing;
pub mod rng;
pub mod trig;
pub mod terrain;
pub mod params;
pub mod landscape;

