//! Transform, projection and collision helpers for plane-based geometric
//! algebra, on IEEE 754 binary32 numbers held as their bit patterns.
//!
//! Points, lines, rotors and motors hold the patterns of their coefficients
//! ([`pga2d`], [`pga3d`]). Whatever only moves, negates or compares numbers
//! is done on the patterns and proved ([`ieee`]). The products of the algebra
//! are computed by the `geometric_algebra` crate, and the contracts speak of
//! their results by name.
//!
//! - [`transform`]: rigid motions from angles, axes and vectors, back again,
//!   and as matrices.
//! - [`matrix`]: products of 4×4 matrices, and the layout of a perspective
//!   matrix.
//! - [`collision`]: intersection of lines, boxes as polygons, overlap of
//!   convex polygons.
//! - [`color`]: the parts of the sRGB transfer curve.
//! - [`buffer`]: patterns as bytes.

pub mod ieee;
pub mod pga2d;
pub mod pga3d;
pub mod polar;
pub mod collision;
pub mod transform;
pub mod matrix;
pub mod color;
pub mod buffer;
