//! Points and rectangles on the drawing surface, in whole layout units.
//!
//! The surface measures in fractions of a point; the library counts in
//! layout units, [`UNITS_PER_POINT`] to the point, so that every comparison
//! and every sum is exact.

use vstd::prelude::*;

verus! {

/// Layout units in one point of the drawing surface.
pub const UNITS_PER_POINT: i64 = 64;

/// A position on the surface. `y` grows downwards.
#[derive(Clone, Copy, PartialEq, Eq, Debug, Structural)]
pub struct Pos2 {
    pub x: i64,
    pub y: i64,
}

/// A displacement on the surface.
#[derive(Clone, Copy, PartialEq, Eq, Debug, Structural)]
pub struct Vec2 {
    pub x: i64,
    pub y: i64,
}

/// An axis-aligned rectangle, given by its top-left and bottom-right corners.
#[derive(Clone, Copy, PartialEq, Eq, Debug, Structural)]
pub struct Rect {
    pub min: Pos2,
    pub max: Pos2,
}

impl Rect {
    /// The point lies in the rectangle, borders included.
    pub open spec fn covers(self, p: Pos2) -> bool {
        self.min.x <= p.x <= self.max.x && self.min.y <= p.y <= self.max.y
    }

    pub fn contains(&self, p: Pos2) -> (r: bool)
        ensures
            r == self.covers(p),
    {
        self.min.x <= p.x && p.x <= self.max.x && self.min.y <= p.y && p.y <= self.max.y
    }

    pub fn top(&self) -> (r: i64)
        ensures
            r == self.min.y,
    {
        self.min.y
    }

    pub fn bottom(&self) -> (r: i64)
        ensures
            r == self.max.y,
    {
        self.max.y
    }
}

} // verus!
