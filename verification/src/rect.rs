//! A simple 2D rectangle with fixed-point coordinates, with the point and
//! vector types that go with it.
//!
//! Coordinates are held in signed 16.16 fixed point: `UNIT` subunits make one
//! whole unit, so a coordinate value `c` stands for the real number
//! `c / UNIT`. The origin of a rectangle is at the top-left, with x
//! increasing to the right and y increasing down. Width and height may be
//! negative; nothing normalizes a rectangle whose `right()` lies left of
//! `left()`, and callers must handle that case themselves.

use vstd::prelude::*;

verus! {

/// The number of fixed-point subunits in one whole coordinate unit.
pub const UNIT: i64 = 65536;

/// A 2 dimensional point representing a location.
#[derive(Copy, Clone, Debug, PartialEq, Eq, Structural)]
pub struct Point2 {
    /// Horizontal coordinate, in subunits.
    pub x: i64,
    /// Vertical coordinate, in subunits.
    pub y: i64,
}

impl Point2 {
    /// Create a new point from two coordinates in subunits.
    pub fn new(x: i64, y: i64) -> (p: Point2)
        ensures
            p == (Point2 { x, y }),
    {
        Point2 { x, y }
    }
}

/// A 2 dimensional vector representing an offset of a location.
#[derive(Copy, Clone, Debug, PartialEq, Eq, Structural)]
pub struct Vector2 {
    /// Horizontal component, in subunits.
    pub x: i64,
    /// Vertical component, in subunits.
    pub y: i64,
}

impl Vector2 {
    /// Create a new vector from two components in subunits.
    pub fn new(x: i64, y: i64) -> (v: Vector2)
        ensures
            v == (Vector2 { x, y }),
    {
        Vector2 { x, y }
    }
}

/// A simple 2D rectangle.
///
/// `(x, y)` is the origin corner of the rect; `w` extends rightward and `h`
/// downward from it.
#[derive(Copy, Clone, Debug, PartialEq, Eq, Structural)]
pub struct Rect {
    /// X coordinate of the origin corner of the rect, in subunits.
    pub x: i64,
    /// Y coordinate of the origin corner of the rect, in subunits.
    pub y: i64,
    /// Total width of the rect, in subunits.
    pub w: i64,
    /// Total height of the rect, in subunits.
    pub h: i64,
}

/// The magnitude of an integer.
pub open spec fn abs_of(a: int) -> int {
    if a >= 0 {
        a
    } else {
        -a
    }
}

/// Division that rounds the quotient toward zero, as the hardware division
/// of the fixed-point representation does.
pub open spec fn div_trunc(a: int, b: int) -> int
    recommends
        b != 0,
{
    if (a >= 0) == (b >= 0) {
        abs_of(a) / abs_of(b)
    } else {
        -(abs_of(a) / abs_of(b))
    }
}

/// Whether the rectangle contains the point, boundary included on all four
/// edges.
pub open spec fn rect_contains(r: Rect, p: Point2) -> bool {
    r.x <= p.x && p.x <= r.x + r.w && r.y <= p.y && p.y <= r.y + r.h
}

/// Whether the two rectangles' projections intersect on both axes, boundary
/// included: rectangles that merely touch along an edge overlap.
pub open spec fn rects_overlap(r: Rect, o: Rect) -> bool {
    r.x <= o.x + o.w && r.x + r.w >= o.x && r.y <= o.y + o.h && r.y + r.h >= o.y
}

/// Containment is boundary-inclusive on all four edges: for a rectangle
/// with non-negative extents, the origin corner and the far corner both lie
/// inside, and a point strictly beyond any edge lies outside.
pub proof fn lemma_contains_boundary(r: Rect, p: Point2)
    ensures
        r.w >= 0 && r.h >= 0 && p.x == r.x && p.y == r.y ==> rect_contains(r, p),
        r.w >= 0 && r.h >= 0 && p.x == r.x + r.w && p.y == r.y + r.h ==> rect_contains(r, p),
        p.x < r.x || p.x > r.x + r.w || p.y < r.y || p.y > r.y + r.h ==> !rect_contains(r, p),
{
}

/// Overlap is boundary-inclusive: two rectangles with non-negative extents
/// that share an edge overlap, while rectangles separated by any positive
/// gap on either axis do not.
pub proof fn lemma_overlap_boundary(a: Rect, b: Rect)
    requires
        a.w >= 0,
        a.h >= 0,
        b.w >= 0,
        b.h >= 0,
    ensures
        a.x + a.w == b.x && a.y <= b.y + b.h && b.y <= a.y + a.h ==> rects_overlap(a, b),
        a.y + a.h == b.y && a.x <= b.x + b.w && b.x <= a.x + a.w ==> rects_overlap(a, b),
        a.x + a.w < b.x || b.x + b.w < a.x || a.y + a.h < b.y || b.y + b.h < a.y
            ==> !rects_overlap(a, b),
{
}

/// Truncating signed division, computed on magnitudes so that the quotient
/// rounds toward zero.
fn div_trunc_i64(a: i64, b: i64) -> (q: i64)
    requires
        b != 0,
        i64::MIN < a,
        i64::MIN < b,
    ensures
        q == div_trunc(a as int, b as int),
{
    let na: u64 = if a >= 0 {
        a as u64
    } else {
        (-a) as u64
    };
    let nb: u64 = if b >= 0 {
        b as u64
    } else {
        (-b) as u64
    };
    let nq: u64 = na / nb;
    proof {
        assert(na / nb <= na) by (nonlinear_arith)
            requires
                nb >= 1,
        ;
    }
    let qi = nq as i64;
    if (a >= 0) == (b >= 0) {
        qi
    } else {
        -qi
    }
}

impl Rect {
    /// Create a new rect from its origin corner and extents, in subunits.
    pub fn new(x: i64, y: i64, w: i64, h: i64) -> (r: Rect)
        ensures
            r == (Rect { x, y, w, h }),
    {
        Rect { x, y, w, h }
    }

    /// Create a new rect from whole-unit coordinates.
    pub fn new_i32(x: i32, y: i32, w: i32, h: i32) -> (r: Rect)
        ensures
            r.x == x * UNIT,
            r.y == y * UNIT,
            r.w == w * UNIT,
            r.h == h * UNIT,
    {
        Rect { x: (x as i64) * UNIT, y: (y as i64) * UNIT, w: (w as i64) * UNIT, h: (h as i64)
            * UNIT }
    }

    /// Create a new `Rect` with all values zero.
    pub fn zero() -> (r: Rect)
        ensures
            r == (Rect { x: 0i64, y: 0i64, w: 0i64, h: 0i64 }),
    {
        Rect { x: 0, y: 0, w: 0, h: 0 }
    }

    /// Create a new `Rect` at (0, 0) with width and height of one whole unit.
    pub fn one() -> (r: Rect)
        ensures
            r == (Rect { x: 0i64, y: 0i64, w: UNIT, h: UNIT }),
    {
        Rect { x: 0, y: 0, w: UNIT, h: UNIT }
    }

    /// Express a sub-region as a proportion of a reference rectangle's size:
    /// each field of the result is the corresponding input divided by the
    /// reference's extent on that axis, so a sub-rect of a texture becomes a
    /// rect in normalized `[0, 1]` coordinate space. The quotients round
    /// toward zero where the division is not exact.
    pub fn fraction(x: i64, y: i64, w: i64, h: i64, reference: &Rect) -> (r: Rect)
        requires
            reference.w != 0,
            reference.h != 0,
            i64::MIN < reference.w,
            i64::MIN < reference.h,
            -i64::MAX <= x * UNIT <= i64::MAX,
            -i64::MAX <= y * UNIT <= i64::MAX,
            -i64::MAX <= w * UNIT <= i64::MAX,
            -i64::MAX <= h * UNIT <= i64::MAX,
        ensures
            r.x == div_trunc(x * UNIT, reference.w as int),
            r.y == div_trunc(y * UNIT, reference.h as int),
            r.w == div_trunc(w * UNIT, reference.w as int),
            r.h == div_trunc(h * UNIT, reference.h as int),
    {
        Rect {
            x: div_trunc_i64(x * UNIT, reference.w),
            y: div_trunc_i64(y * UNIT, reference.h),
            w: div_trunc_i64(w * UNIT, reference.w),
            h: div_trunc_i64(h * UNIT, reference.h),
        }
    }

    /// Gets the `Rect`'s x and y coordinates as a `Point2`.
    pub fn point(&self) -> (p: Point2)
        ensures
            p == (Point2 { x: self.x, y: self.y }),
    {
        Point2 { x: self.x, y: self.y }
    }

    /// Returns the left edge of the `Rect`.
    pub fn left(&self) -> (r: i64)
        ensures
            r == self.x,
    {
        self.x
    }

    /// Returns the right edge of the `Rect`.
    pub fn right(&self) -> (r: i64)
        requires
            i64::MIN <= self.x + self.w <= i64::MAX,
        ensures
            r == self.x + self.w,
    {
        self.x + self.w
    }

    /// Returns the top edge of the `Rect`.
    pub fn top(&self) -> (r: i64)
        ensures
            r == self.y,
    {
        self.y
    }

    /// Returns the bottom edge of the `Rect`.
    pub fn bottom(&self) -> (r: i64)
        requires
            i64::MIN <= self.y + self.h <= i64::MAX,
        ensures
            r == self.y + self.h,
    {
        self.y + self.h
    }

    /// Checks whether the `Rect` contains a `Point`, boundary included.
    pub fn contains(&self, point: Point2) -> (res: bool)
        requires
            i64::MIN <= self.x + self.w <= i64::MAX,
            i64::MIN <= self.y + self.h <= i64::MAX,
        ensures
            res == rect_contains(*self, point),
    {
        point.x >= self.x && point.x <= self.x + self.w && point.y <= self.y + self.h
            && point.y >= self.y
    }

    /// Checks whether the `Rect` overlaps another `Rect`; rectangles that
    /// merely touch along an edge count as overlapping.
    pub fn overlaps(&self, other: &Rect) -> (res: bool)
        requires
            i64::MIN <= self.x + self.w <= i64::MAX,
            i64::MIN <= self.y + self.h <= i64::MAX,
            i64::MIN <= other.x + other.w <= i64::MAX,
            i64::MIN <= other.y + other.h <= i64::MAX,
        ensures
            res == rects_overlap(*self, *other),
    {
        self.x <= other.x + other.w && self.x + self.w >= other.x && self.y <= other.y + other.h
            && self.y + self.h >= other.y
    }

    /// Translates the `Rect` by an offset of (x, y); the extents are
    /// unchanged.
    pub fn translate(&mut self, offset: Vector2)
        requires
            i64::MIN <= old(self).x + offset.x <= i64::MAX,
            i64::MIN <= old(self).y + offset.y <= i64::MAX,
        ensures
            final(self).x == old(self).x + offset.x,
            final(self).y == old(self).y + offset.y,
            final(self).w == old(self).w,
            final(self).h == old(self).h,
    {
        self.x = self.x + offset.x;
        self.y = self.y + offset.y;
    }

    /// Moves the `Rect`'s origin corner to the destination, discarding the
    /// prior position; the extents are unchanged.
    pub fn move_to(&mut self, destination: Point2)
        ensures
            final(self).x == destination.x,
            final(self).y == destination.y,
            final(self).w == old(self).w,
            final(self).h == old(self).h,
    {
        self.x = destination.x;
        self.y = destination.y;
    }

    /// Scales the `Rect`'s extents by factors given in subunits (`UNIT`
    /// stands for a factor of one); the origin corner is unchanged, so
    /// growth and shrink are anchored there, not at the center. Each scaled
    /// extent rounds toward zero where the fixed-point product is not exact.
    pub fn scale(&mut self, sx: i64, sy: i64)
        requires
            -i64::MAX <= old(self).w * sx <= i64::MAX,
            -i64::MAX <= old(self).h * sy <= i64::MAX,
        ensures
            final(self).x == old(self).x,
            final(self).y == old(self).y,
            final(self).w == div_trunc(old(self).w * sx, UNIT as int),
            final(self).h == div_trunc(old(self).h * sy, UNIT as int),
    {
        self.w = div_trunc_i64(self.w * sx, UNIT);
        self.h = div_trunc_i64(self.h * sy, UNIT);
    }

    /// Turns an `[x, y, w, h]` array of subunit coordinates into a `Rect`,
    /// order-preserving and lossless.
    pub fn from_array(val: [i64; 4]) -> (r: Rect)
        ensures
            r == (Rect { x: val[0], y: val[1], w: val[2], h: val[3] }),
    {
        Rect { x: val[0], y: val[1], w: val[2], h: val[3] }
    }

    /// Turns the `Rect` into an `[x, y, w, h]` array of subunit coordinates,
    /// order-preserving and lossless.
    pub fn to_array(&self) -> (val: [i64; 4])
        ensures
            val[0] == self.x,
            val[1] == self.y,
            val[2] == self.w,
            val[3] == self.h,
    {
        [self.x, self.y, self.w, self.h]
    }
}

} // verus!
