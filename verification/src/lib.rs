//! A ray tracer whose every decision is verified.
//!
//! A picture is traced ray by ray: the nearest shape on a ray is found, its
//! surface is shaded under the scene's lights with hard shadows, and mirrored
//! rays are followed to a bounded depth.
//!
//! Numbers are IEEE 754 single-precision bit patterns (`scalar::Scalar`).
//! What only inspects a number is computed and proved here, on the bits:
//! ordering, thresholds, clamping, the choice among roots, slabs, faces and
//! hits, the cut to a texel index, the rounding to a byte. What rounds is
//! asked of an `arith::Arith` that the caller brings. Nothing is assumed of
//! it: the thresholds, ranges and choices are proved whatever it answers, and
//! where it answers the same question the same way each time
//! (`arith::fixed`), every result is stated exactly, as a formula over its
//! operations.

pub mod arith;
pub mod camera;
pub mod cube;
pub mod hit;
pub mod light;
pub mod material;
pub mod output;
pub mod plane;
pub mod pyramid;
pub mod raster;
pub mod ray;
pub mod renderer;
pub mod scalar;
pub mod scene;
pub mod sphere;
pub mod texture;
pub mod vector;
