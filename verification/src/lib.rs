//! Integer core of a small software ray tracer.
//!
//! The renderer itself casts one ray per pixel through a pinhole camera and
//! shades the nearest sphere it meets, all in floating-point arithmetic that
//! lives outside this crate.  What this crate verifies is everything in that
//! renderer that is exact: the row-major pixel-buffer layout and the policies
//! that decide which intersection counts — the distance-window test for a
//! candidate root and the nearest-hit resolution across the scene.  Distances
//! enter those policies as order-preserving integer keys supplied by the
//! caller.

pub mod image;
pub mod resolve;
