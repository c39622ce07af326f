//! Decision core of a Monte-Carlo path tracer.
//!
//! Numbers are carried as IEEE-754 binary64 bit patterns. The crate orders,
//! negates and classifies them exactly; arithmetic on them is the caller's.
//!
//! - `scalar`, `vec3`, `ray`, `interval`: numbers, vectors, rays and ranges
//!   of the ray parameter.
//! - `hittable`, `sphere`, `hittable_list`: intersection records, the root
//!   a sphere is hit at, and the search of a scene for the closest hit.
//! - `material`: what each material decides when it scatters.
//! - `estimator`: how a light path ends.
//! - `camera`, `color`: the camera's states and the image as text.

pub mod camera;
pub mod color;
pub mod error;
pub mod estimator;
pub mod hittable;
pub mod hittable_list;
pub mod interval;
pub mod material;
pub mod ray;
pub mod scalar;
pub mod sphere;
pub mod vec3;
