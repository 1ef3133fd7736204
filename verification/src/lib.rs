//! The geometric core of a ray tracer, verified.
//!
//! The crate holds the algebra of points, vectors and normals, the matrices
//! that move them, the tests that find where a ray meets a sphere, a plane, a
//! disk, a triangle or a box, the search for the nearest shape along a ray,
//! and the loop that turns a scene and a camera into a buffer of
//! intensities. It also holds the rules by which the command line is read.
//!
//! All numbers are [`scalar::Scalar`]s: fixed-point numbers with infinities
//! and an undefined value, so that every operation has a result and every
//! result is stated exactly. No function of the crate panics: what a
//! function cannot accept is excluded by its `requires`, and the render loop
//! proves that it never asks a shape for a normal that the shape does not
//! have.
pub mod arith;
pub mod cli;
pub mod geometry;
pub mod renderer;
pub mod scalar;
