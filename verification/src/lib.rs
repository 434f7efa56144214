//! Geometric and shading core of a CPU ray tracer.
//!
//! All real-valued quantities are carried as exact fixed-point numbers
//! ([`fx::Fx`], millionths), so every arithmetic step has a precise
//! integer meaning and every contract below is exact.
//!
//! The model works within documented coordinate ranges, stated as
//! `requires` clauses over named constants: world-space rays and
//! points within ±1000 units ([`transform::WORLD_LIMIT`]), transform
//! entries within ±100 ([`transform::MAT_LIMIT`]), shading colors
//! within ±1000 per channel ([`color::COLOR_LIMIT`]), and, for the
//! single-primitive tracer, radii in `[0.01, 1000]`
//! ([`hittable::MIN_RADIUS`], [`hittable::RADIUS_LIMIT`]). These are
//! machine limits of the 128-bit fixed-point representation, not
//! scene semantics.

pub mod fx;
pub mod tuple;
pub mod vector;
pub mod ray;
pub mod sphere;
pub mod transform;
pub mod color;
pub mod material;
pub mod bounded;
pub mod intersect;
pub mod object;
pub mod transformed;
pub mod hittable;
