//! A Whitted-style recursive ray tracer over saturating fixed-point
//! arithmetic.
//!
//! Every quantity that the renderer manipulates (coordinates, colors,
//! angles, material weights) is a real number approximated as an `i64`
//! holding `round(value * 65536)`.  All arithmetic saturates at the `i64`
//! bounds instead of overflowing, so every operation is total and its
//! result is pinned exactly by a specification-level mirror function.

pub mod camera;
pub mod color;
pub mod cube;
pub mod fixed;
pub mod laws;
pub mod light;
pub mod material;
pub mod ray_intersect;
pub mod scene;
pub mod sphere;
pub mod tracer;
pub mod trig;
pub mod vec3;
