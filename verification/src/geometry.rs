//! Points and axis-aligned rectangles on the half-pixel grid.

use vstd::prelude::*;

verus! {

/// A point, or a displacement, in half pixels. `y` grows downwards.
#[derive(Clone, Copy, Debug, PartialEq, Eq, Structural)]
pub struct Vec2 {
    pub x: i64,
    pub y: i64,
}

impl Vec2 {
    /// The vector with the given components.
    pub fn new(x: i64, y: i64) -> (v: Vec2)
        ensures
            v == (Vec2 { x, y }),
    {
        Vec2 { x, y }
    }

    /// The vector that is `x` whole pixels across and `y` whole pixels down.
    pub fn pixels(x: i32, y: i32) -> (v: Vec2)
        ensures
            v.x == 2 * x,
            v.y == 2 * y,
    {
        Vec2 { x: 2 * (x as i64), y: 2 * (y as i64) }
    }

    /// The zero vector.
    pub fn zero() -> (v: Vec2)
        ensures
            v == (Vec2 { x: 0, y: 0 }),
    {
        Vec2 { x: 0, y: 0 }
    }
}

/// An axis-aligned rectangle: its top-left corner and its size, in half
/// pixels.
///
/// The cells of a rectangle are those at `(px, py)` with
/// `x <= px < x + width` and `y <= py < y + height`; a rectangle whose width
/// or height is not positive has none.
#[derive(Clone, Copy, Debug, PartialEq, Eq, Structural)]
pub struct Rect {
    pub x: i64,
    pub y: i64,
    pub width: i64,
    pub height: i64,
}

impl Rect {
    /// Whether the cell at `(px, py)` belongs to the rectangle.
    pub open spec fn covers(self, px: int, py: int) -> bool {
        &&& self.x <= px < self.x + self.width
        &&& self.y <= py < self.y + self.height
    }

    /// Whether each rectangle begins, on both axes, before the other ends.
    pub open spec fn overlaps(self, other: Rect) -> bool {
        &&& self.x < other.x + other.width
        &&& self.x + self.width > other.x
        &&& self.y < other.y + other.height
        &&& self.y + self.height > other.y
    }

    /// The rectangle with the given corner and size.
    pub fn new(x: i64, y: i64, width: i64, height: i64) -> (r: Rect)
        ensures
            r == (Rect { x, y, width, height }),
    {
        Rect { x, y, width, height }
    }

    /// Returns `true` if `other` overlaps `self`. Rectangles that only share
    /// an edge do not overlap.
    pub fn intersects(&self, other: &Rect) -> (b: bool)
        ensures
            b == self.overlaps(*other),
    {
        let left: i128 = self.x as i128;
        let right: i128 = self.x as i128 + self.width as i128;
        let top: i128 = self.y as i128;
        let bottom: i128 = self.y as i128 + self.height as i128;
        let other_left: i128 = other.x as i128;
        let other_right: i128 = other.x as i128 + other.width as i128;
        let other_top: i128 = other.y as i128;
        let other_bottom: i128 = other.y as i128 + other.height as i128;
        left < other_right && right > other_left && top < other_bottom && bottom > other_top
    }
}

/// Overlap does not depend on which rectangle is asked.
pub proof fn lemma_overlaps_symmetric(a: Rect, b: Rect)
    ensures
        a.overlaps(b) == b.overlaps(a),
{
}

/// Two rectangles of positive size overlap exactly when some cell belongs
/// to both.
pub proof fn lemma_overlaps_iff_shared_cell(a: Rect, b: Rect)
    requires
        a.width > 0,
        a.height > 0,
        b.width > 0,
        b.height > 0,
    ensures
        a.overlaps(b) <==> exists|px: int, py: int| #[trigger] a.covers(px, py) && b.covers(px, py),
{
    if a.overlaps(b) {
        let px: int = if a.x >= b.x { a.x as int } else { b.x as int };
        let py: int = if a.y >= b.y { a.y as int } else { b.y as int };
        assert(a.covers(px, py) && b.covers(px, py));
    }
}

} // verus!
