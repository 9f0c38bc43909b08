//! The annotated-point data model: image-space coordinates, an optional
//! real-world enrichment, and the pair stored per annotation.

use vstd::prelude::*;

verus! {

/// A position in the source image's pixel grid, in milliunits (thousandths of
/// a pixel). Point identity for deduplication and deletion is exact equality
/// of these two integers. Values outside `[0, image size]` can reach the
/// store from a corrupted save; they are tolerated and simply project
/// off-screen.
#[derive(Clone, Copy, Debug, PartialEq, Eq, Structural)]
pub struct PixelCoordinate {
    pub x: i64,
    pub y: i64,
}

/// An optional real-world enrichment of an annotated point, in microdegrees
/// of latitude and longitude. This core only carries the value; it never
/// computes one.
#[derive(Clone, Copy, Debug, PartialEq, Eq, Structural)]
pub struct RealCoordinate {
    pub lat: i64,
    pub lon: i64,
}

/// One annotated point: its pixel position and, possibly, a real-world
/// coordinate supplied by an external collaborator.
#[derive(Clone, Copy, Debug, PartialEq, Eq, Structural)]
pub struct CoordinatePair {
    pub pixels: PixelCoordinate,
    pub real: Option<RealCoordinate>,
}

} // verus!
