//! A small 2D line-drawing library.
//!
//! Lines are rendered as thin oriented rectangles: the library computes, for
//! each requested line, the rectangle geometry (length, rotation, vertex
//! quad) and the uniform values a flat-color shader pipeline needs, all in
//! fixed-point subpixel units.  The surrounding application owns the actual
//! GPU surface and uploads the computed values.

pub mod canvas;
pub mod color;
pub mod geometry;
pub mod scene;
