//! Axis-aligned footprint rectangles and the overlap test used to decide
//! where a building may be placed.
//!
//! A rectangle covers the half-open cell ranges `[x1, x2)` and `[y1, y2)`,
//! so two rectangles that merely share a boundary edge do not intersect.

use vstd::prelude::*;

verus! {

#[derive(Clone, Copy, Debug, PartialEq, Eq, Structural)]
pub struct Rect {
    pub x1: i32,
    pub y1: i32,
    pub x2: i32,
    pub y2: i32,
}

/// Whether the half-open cell ranges of `a` and `b` overlap in both axes.
pub open spec fn rects_intersect(a: Rect, b: Rect) -> bool {
    &&& a.x1 < b.x2
    &&& b.x1 < a.x2
    &&& a.y1 < b.y2
    &&& b.y1 < a.y2
}

/// A rectangle covering at least one cell.
pub open spec fn rect_nonempty(r: Rect) -> bool {
    r.x1 < r.x2 && r.y1 < r.y2
}

impl Rect {
    /// A `width`-by-`height` rectangle anchored at `(x, y)`.
    pub fn new(x: i32, y: i32, width: i32, height: i32) -> (r: Rect)
        requires
            i32::MIN <= x + width <= i32::MAX,
            i32::MIN <= y + height <= i32::MAX,
        ensures
            r == (Rect { x1: x, y1: y, x2: (x + width) as i32, y2: (y + height) as i32 }),
    {
        Rect { x1: x, y1: y, x2: x + width, y2: y + height }
    }

    /// True iff `self` and `other` overlap in at least one cell.
    pub fn intersect(&self, other: &Rect) -> (r: bool)
        ensures
            r == rects_intersect(*self, *other),
    {
        self.x1 < other.x2 && other.x1 < self.x2 && self.y1 < other.y2 && other.y1 < self.y2
    }
}

/// Overlap does not depend on the order of the two rectangles.
pub proof fn lemma_intersect_symmetric(a: Rect, b: Rect)
    ensures
        rects_intersect(a, b) == rects_intersect(b, a),
{
}

/// A rectangle covering at least one cell always overlaps itself.
pub proof fn lemma_intersect_reflexive(a: Rect)
    requires
        rect_nonempty(a),
    ensures
        rects_intersect(a, a),
{
}

/// Two rectangles that only touch along a boundary edge do not overlap:
/// one ends, in some axis, exactly where the other begins.
pub proof fn lemma_edge_touch_no_intersect(a: Rect, b: Rect)
    requires
        a.x2 <= b.x1 || b.x2 <= a.x1 || a.y2 <= b.y1 || b.y2 <= a.y1,
    ensures
        !rects_intersect(a, b),
{
}

} // verus!
