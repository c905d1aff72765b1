//! Axis-aligned rectangle used transiently during map generation:
//! intersection test and center point.

use vstd::prelude::*;

verus! {

/// An axis-aligned rectangle with `x1 < x2` and `y1 < y2`.
#[derive(PartialEq, Eq, Structural, Copy, Clone, Debug)]
pub struct Rect {
    pub x1: i32,
    pub x2: i32,
    pub y1: i32,
    pub y2: i32,
}

impl Rect {
    /// The rectangle's invariant: a positive extent on both axes.
    pub open spec fn wf(self) -> bool {
        self.x1 < self.x2 && self.y1 < self.y2
    }

    /// Builds the rectangle with corner `(x, y)`, width `w` and height `h`.
    pub fn new(x: i32, y: i32, w: i32, h: i32) -> (r: Rect)
        requires
            w >= 1,
            h >= 1,
            x + w <= i32::MAX,
            y + h <= i32::MAX,
        ensures
            r == (Rect { x1: x, y1: y, x2: (x + w) as i32, y2: (y + h) as i32 }),
            r.wf(),
    {
        Rect { x1: x, y1: y, x2: x + w, y2: y + h }
    }

    /// True exactly when the two rectangles overlap or touch.
    pub fn intersect(&self, other: &Rect) -> (r: bool)
        ensures
            r == (self.x1 <= other.x2 && self.x2 >= other.x1 && self.y1 <= other.y2
                && self.y2 >= other.y1),
    {
        self.x1 <= other.x2 && self.x2 >= other.x1 && self.y1 <= other.y2 && self.y2 >= other.y1
    }

    /// The center cell `((x1 + x2) / 2, (y1 + y2) / 2)`.
    pub fn center(&self) -> (r: (i32, i32))
        requires
            0 <= self.x1,
            0 <= self.y1,
            self.wf(),
            self.x1 + self.x2 <= i32::MAX,
            self.y1 + self.y2 <= i32::MAX,
        ensures
            r.0 == (self.x1 + self.x2) / 2,
            r.1 == (self.y1 + self.y2) / 2,
    {
        ((self.x1 + self.x2) / 2, (self.y1 + self.y2) / 2)
    }
}

} // verus!
