//! A small offline ray tracer with a verified core.
//!
//! All scalar arithmetic is carried out in signed 64-bit fixed-point
//! numbers (16 fractional bits), so every geometric and shading
//! computation has an exact, machine-checkable meaning.
//!
//! The modules, leaves first: [`fixed`] holds the scalar type and its
//! exact arithmetic; [`maths`] the vector algebra; [`ray`] rays, the
//! pinhole projection and the anti-aliasing sample patterns;
//! [`camera`] the camera-to-world transform; [`intersections`] the
//! primitives and the nearest-hit aggregate; [`light_transport`]
//! colors, materials, lights, reflection and refraction; [`render`]
//! the recursive shader and the per-pixel pipeline; [`model`] the
//! interpretation of loaded scene geometry; and [`laws`] the proved
//! library-wide properties.

use vstd::prelude::*;

pub mod camera;
pub mod fixed;
pub mod intersections;
pub mod laws;
pub mod light_transport;
pub mod maths;
pub mod model;
pub mod ray;
pub mod render;

verus! {

/// Hard configuration and scene-input errors, reported to the caller
/// before any rendering work starts.
#[derive(Clone, Copy, Debug, PartialEq, Eq, Structural)]
pub enum RenderError {
    /// The sample count is not one of the supported pattern sizes.
    InvalidSampleCount,
    /// The output image has a zero width or height.
    ZeroImageDimension,
    /// A triangle index points past the end of the vertex list.
    IndexOutOfBounds,
    /// The index list does not split into whole triangles.
    DanglingIndices,
}

} // verus!
