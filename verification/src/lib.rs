//! A Whitted-style recursive ray tracer over fixed-point arithmetic.
//!
//! Scalars are `i64` values scaled by one million, so one unit is `1e-6`.
//! Every geometric routine and the shading recursion carry exact functional
//! contracts stated over spec-level mirrors of the fixed-point algorithms.

pub mod color;
pub mod figure;
pub mod laws;
pub mod material;
pub mod math;
pub mod num;
pub mod raytracer;
pub mod scene;
