//! Screen-space geometry: integer points and the triangle fill test used
//! by the rasterizer.

use vstd::prelude::*;

verus! {

/// A point in screen cell coordinates.
#[derive(Debug, Clone, Copy, PartialEq, Eq, Structural)]
pub struct Point2D {
    pub x: isize,
    pub y: isize,
}

/// The absolute value of `v`.
pub open spec fn abs_int(v: int) -> int {
    if v < 0 {
        -v
    } else {
        v
    }
}

/// Coordinates small enough that the area arithmetic of the fill test
/// cannot overflow, even on a 32-bit host.
pub open spec fn coord_in_range(p: Point2D) -> bool {
    &&& -8192 <= p.x <= 8192
    &&& -8192 <= p.y <= 8192
}

/// Twice the area of the triangle `(a, b, c)`, as an absolute value.
pub open spec fn doubled_area(a: Point2D, b: Point2D, c: Point2D) -> int {
    abs_int(a.x * (b.y - c.y) + b.x * (c.y - a.y) + c.x * (a.y - b.y))
}

/// A triangle of projected screen points.
#[derive(Debug, Clone, Copy, PartialEq, Eq, Structural)]
pub struct Triangle(pub Point2D, pub Point2D, pub Point2D);

/// The fill test of the rasterizer: `p` lies in `t` when the three part
/// areas sum to at most the whole area, with one unit of slack so that
/// cells on an edge count as covered.
pub open spec fn in_triangle(t: Triangle, p: Point2D) -> bool {
    doubled_area(p, t.1, t.2) + doubled_area(t.0, p, t.2) + doubled_area(t.0, t.1, p)
        <= doubled_area(t.0, t.1, t.2) + 1
}

/// All three corners of `t` lie in the coordinate range of the fill test.
pub open spec fn triangle_in_range(t: Triangle) -> bool {
    coord_in_range(t.0) && coord_in_range(t.1) && coord_in_range(t.2)
}

/// Twice the triangle area of three points, each within coordinate range.
fn area2(p1: &Point2D, p2: &Point2D, p3: &Point2D) -> (r: isize)
    requires
        coord_in_range(*p1),
        coord_in_range(*p2),
        coord_in_range(*p3),
    ensures
        r as int == doubled_area(*p1, *p2, *p3),
        0 <= r <= 402653184,
{
    proof {
        assert(-134217728 <= p1.x * (p2.y - p3.y) <= 134217728) by (nonlinear_arith)
            requires
                -8192 <= p1.x <= 8192,
                -16384 <= p2.y - p3.y <= 16384,
        ;
        assert(-134217728 <= p2.x * (p3.y - p1.y) <= 134217728) by (nonlinear_arith)
            requires
                -8192 <= p2.x <= 8192,
                -16384 <= p3.y - p1.y <= 16384,
        ;
        assert(-134217728 <= p3.x * (p1.y - p2.y) <= 134217728) by (nonlinear_arith)
            requires
                -8192 <= p3.x <= 8192,
                -16384 <= p1.y - p2.y <= 16384,
        ;
    }
    let v: isize = p1.x * (p2.y - p3.y) + p2.x * (p3.y - p1.y) + p3.x * (p1.y - p2.y);
    if v < 0 {
        -v
    } else {
        v
    }
}

impl Triangle {
    /// Whether screen cell `p` is covered by this triangle, by the
    /// area-sum test with one unit of slack.
    pub fn point_in_triangle(&self, p: Point2D) -> (r: bool)
        requires
            triangle_in_range(*self),
            coord_in_range(p),
        ensures
            r == in_triangle(*self, p),
    {
        let Self(a, b, c) = self;
        let total = area2(a, b, c);
        let a1 = area2(&p, b, c);
        let a2 = area2(a, &p, c);
        let a3 = area2(a, b, &p);
        a1 + a2 + a3 <= total + 1
    }

    /// Whether all three corners lie in the coordinate range accepted by
    /// the fill test.
    pub fn in_range(&self) -> (r: bool)
        ensures
            r == triangle_in_range(*self),
    {
        let lo: isize = -8192;
        let hi: isize = 8192;
        lo <= self.0.x && self.0.x <= hi && lo <= self.0.y && self.0.y <= hi && lo <= self.1.x
            && self.1.x <= hi && lo <= self.1.y && self.1.y <= hi && lo <= self.2.x && self.2.x
            <= hi && lo <= self.2.y && self.2.y <= hi
    }

    /// Whether this triangle has zero area, corners collinear or
    /// coincident; such a triangle paints nothing.
    pub fn is_degenerate(&self) -> (r: bool)
        requires
            triangle_in_range(*self),
        ensures
            r == (doubled_area(self.0, self.1, self.2) == 0),
    {
        let Self(a, b, c) = self;
        area2(a, b, c) == 0
    }
}

} // verus!
