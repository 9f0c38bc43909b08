//! Screen-space geometry in milliunits: vectors and axis-aligned rectangles.

use vstd::prelude::*;

verus! {

/// A screen-space vector or position, in milliunits (thousandths of a screen
/// point).
#[derive(Clone, Copy, Debug, PartialEq, Eq, Structural)]
pub struct ScreenVec {
    pub x: i64,
    pub y: i64,
}

impl ScreenVec {
    /// The zero vector.
    pub fn zero() -> (r: ScreenVec)
        ensures
            r.x == 0 && r.y == 0,
    {
        ScreenVec { x: 0, y: 0 }
    }
}

/// An axis-aligned screen-space rectangle, in milliunits.
#[derive(Clone, Copy, Debug, PartialEq, Eq, Structural)]
pub struct Rect {
    pub min_x: i64,
    pub min_y: i64,
    pub max_x: i64,
    pub max_y: i64,
}

impl Rect {
    /// A well-formed rectangle has nonnegative extent on both axes.
    pub open spec fn wf(self) -> bool {
        self.min_x <= self.max_x && self.min_y <= self.max_y
    }

    pub open spec fn width(self) -> int {
        self.max_x - self.min_x
    }

    pub open spec fn height(self) -> int {
        self.max_y - self.min_y
    }

    /// Whether `p` lies in the rectangle; the boundary counts as inside.
    pub open spec fn contains(self, p: ScreenVec) -> bool {
        self.min_x <= p.x <= self.max_x && self.min_y <= p.y <= self.max_y
    }

    /// All four coordinates lie within `limit` of the origin.
    pub open spec fn bounded(self, limit: int) -> bool {
        -limit <= self.min_x <= limit && -limit <= self.min_y <= limit
            && -limit <= self.max_x <= limit && -limit <= self.max_y <= limit
    }

    /// Runtime test matching the `contains` specification.
    pub fn contains_point(&self, p: ScreenVec) -> (r: bool)
        ensures
            r == self.contains(p),
    {
        self.min_x <= p.x && p.x <= self.max_x && self.min_y <= p.y && p.y <= self.max_y
    }
}

} // verus!
