//! Plane vectors, axis-aligned rectangles, and the overlap test that every
//! collision check goes through.

use vstd::prelude::*;

verus! {

/// A point or extent in the plane, in coordinate subunits.
#[derive(Clone, Copy, Debug, PartialEq, Eq, Structural)]
pub struct Vec2 {
    pub x: i64,
    pub y: i64,
}

/// A point in space; the z coordinate only orders sprites and never enters
/// the simulation.
#[derive(Clone, Copy, Debug, PartialEq, Eq, Structural)]
pub struct Vec3 {
    pub x: i64,
    pub y: i64,
    pub z: i64,
}

/// An axis-aligned rectangle given by its center and its full extents.
#[derive(Clone, Copy, Debug, PartialEq, Eq, Structural)]
pub struct Rect {
    pub center: Vec2,
    pub size: Vec2,
}

/// Inclusive axis-aligned overlap: the rectangles overlap on both axes,
/// where a zero-width touch of the edges already counts. Written without
/// halving, so it is exact for odd extents too.
pub open spec fn rects_overlap(a: Rect, b: Rect) -> bool {
    &&& 2 * (a.center.x - b.center.x) <= a.size.x + b.size.x
    &&& 2 * (b.center.x - a.center.x) <= a.size.x + b.size.x
    &&& 2 * (a.center.y - b.center.y) <= a.size.y + b.size.y
    &&& 2 * (b.center.y - a.center.y) <= a.size.y + b.size.y
}

/// The collision primitive: does the axis-aligned rectangle `a` overlap
/// `b`, edges included?
pub fn collide(a: &Rect, b: &Rect) -> (r: bool)
    ensures
        r == rects_overlap(*a, *b),
{
    let dx2: i128 = 2 * ((a.center.x as i128) - (b.center.x as i128));
    let sx: i128 = (a.size.x as i128) + (b.size.x as i128);
    let dy2: i128 = 2 * ((a.center.y as i128) - (b.center.y as i128));
    let sy: i128 = (a.size.y as i128) + (b.size.y as i128);
    dx2 <= sx && -dx2 <= sx && dy2 <= sy && -dy2 <= sy
}

/// `v` pulled into `[lo, hi]`, the nearest endpoint winning outside it.
pub open spec fn clamped(v: int, lo: int, hi: int) -> int {
    if v < lo {
        lo
    } else if v > hi {
        hi
    } else {
        v
    }
}

} // verus!
