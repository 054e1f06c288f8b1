//! Plain integer screen geometry.
//!
//! Screen positions and sizes are whole pixel units. The host toolkit
//! converts its own floating-point coordinates at the edge; everything the
//! chart logic computes stays in these exact types.

use vstd::prelude::*;

verus! {

/// Bound on the pixel extent of a frame: a million pixels on a side is far
/// beyond any real surface, and keeps all products of coordinates inside
/// `i64` range.
pub const COORD_LIMIT: i64 = 1048576;

/// A point on the canvas, in pixel units.
#[derive(Debug, Clone, Copy, PartialEq, Eq, Structural)]
pub struct PointPx {
    pub x: i64,
    pub y: i64,
}

/// The size of the drawing surface, in pixel units.
#[derive(Debug, Clone, Copy, PartialEq, Eq, Structural)]
pub struct SizePx {
    pub width: i64,
    pub height: i64,
}

/// An axis-aligned rectangle, in pixel units.
#[derive(Debug, Clone, Copy, PartialEq, Eq, Structural)]
pub struct RectPx {
    pub x: i64,
    pub y: i64,
    pub width: i64,
    pub height: i64,
}

/// A line segment, in pixel units.
#[derive(Debug, Clone, Copy, PartialEq, Eq, Structural)]
pub struct SegmentPx {
    pub from: PointPx,
    pub to: PointPx,
}

/// A drawable frame size: positive on both axes and small enough that
/// coordinate arithmetic stays exact.
pub open spec fn size_wf(bounds: SizePx) -> bool {
    1 <= bounds.width <= COORD_LIMIT && 1 <= bounds.height <= COORD_LIMIT
}

impl SizePx {
    /// Whether a cursor position lies on the frame.
    pub fn contains(self, p: PointPx) -> (r: bool)
        ensures
            r <==> (0 <= p.x <= self.width && 0 <= p.y <= self.height),
    {
        0 <= p.x && p.x <= self.width && 0 <= p.y && p.y <= self.height
    }
}

} // verus!
