//! A verified ray-tracing core.
//!
//! The crate computes what a ray tracer needs per pixel: homogeneous points
//! and vectors, affine transforms with inverses, ray-sphere intersection,
//! nearest-hit selection, light evaluation, composable materials, a camera,
//! and byte-exact image encodings. Every quantity is a fixed-point scalar,
//! an integer count of millionths, so each operation carries an exact
//! contract, and the geometric tolerance of one hundred-thousandth absorbs
//! the truncation that the representation introduces.
//!
//! The surrounding program supplies what the core deliberately leaves out:
//! trigonometric evaluation of angles, the parallel loop over pixels, and
//! file output.

pub mod body;
pub mod camera;
pub mod canvas;
pub mod color;
pub mod fuzzy_comparison;
pub mod image_formats;
pub mod intersection;
pub mod light;
pub mod material;
pub mod matrix;
pub mod point;
pub mod ppm;
pub mod ray;
pub mod render;
pub mod rotation;
pub mod scalar;
pub mod three_part;
pub mod transform;
pub mod util;
pub mod vector;
pub mod weak_cell;
pub mod world_info;
