//! The rasterizer: a fixed-size buffer of optional colour cells, filled
//! triangle by triangle.  Projection and depth ordering happen in the
//! caller; this module paints already-projected 2D triangles, treating
//! degenerate and out-of-range ones as painting nothing.

use vstd::prelude::*;

use crate::cube_utils::Color;
use crate::geometry::{doubled_area, in_triangle, triangle_in_range, Point2D, Triangle};
use crate::grid::{face_seq, GridFace};

verus! {

/// A pixel or character cell buffer; an uncovered cell is background.
pub struct Screen {
    pub size_x: usize,
    pub size_y: usize,
    pub screen: Vec<Vec<Option<Color>>>,
}

/// The rows of cells of `s`, outer index `y`, inner index `x`.
pub open spec fn screen_cells(s: Screen) -> Seq<Seq<Option<Color>>> {
    Seq::new(s.screen@.len(), |y: int| s.screen@[y]@)
}

/// A screen is well formed when it holds `size_y` rows of `size_x` cells.
pub open spec fn screen_wf(s: Screen) -> bool {
    &&& s.screen@.len() == s.size_y
    &&& forall|y: int| 0 <= y < s.screen@.len() ==> (#[trigger] s.screen@[y])@.len() == s.size_x
}

/// The smaller of two integers.
pub open spec fn min2(a: int, b: int) -> int {
    if a <= b {
        a
    } else {
        b
    }
}

/// The larger of two integers.
pub open spec fn max2(a: int, b: int) -> int {
    if a >= b {
        a
    } else {
        b
    }
}

/// The leftmost corner abscissa of `t`.
pub open spec fn tri_min_x(t: Triangle) -> int {
    min2(t.0.x as int, min2(t.1.x as int, t.2.x as int))
}

/// The rightmost corner abscissa of `t`.
pub open spec fn tri_max_x(t: Triangle) -> int {
    max2(t.0.x as int, max2(t.1.x as int, t.2.x as int))
}

/// The lowest corner ordinate of `t`.
pub open spec fn tri_min_y(t: Triangle) -> int {
    min2(t.0.y as int, min2(t.1.y as int, t.2.y as int))
}

/// The highest corner ordinate of `t`.
pub open spec fn tri_max_y(t: Triangle) -> int {
    max2(t.0.y as int, max2(t.1.y as int, t.2.y as int))
}

/// Whether the fill of triangle `t` covers cell `(x, y)`: the triangle is
/// in coordinate range and not degenerate, and the cell lies in its
/// bounding box and passes the area-sum test.
pub open spec fn spec_paints(t: Triangle, x: int, y: int) -> bool {
    &&& triangle_in_range(t)
    &&& doubled_area(t.0, t.1, t.2) != 0
    &&& tri_min_x(t) <= x <= tri_max_x(t)
    &&& tri_min_y(t) <= y <= tri_max_y(t)
    &&& in_triangle(t, Point2D { x: x as isize, y: y as isize })
}

/// The cell grid after one triangle fill of colour `c`: covered cells show
/// `c`, all others keep their colour.
pub open spec fn paint_tri(
    rows: Seq<Seq<Option<Color>>>,
    t: Triangle,
    c: Color,
) -> Seq<Seq<Option<Color>>> {
    Seq::new(
        rows.len(),
        |y: int|
            Seq::new(
                rows[y].len(),
                |x: int|
                    if spec_paints(t, x, y) {
                        Some(c)
                    } else {
                        rows[y][x]
                    },
            ),
    )
}

/// A triangle whose three corners coincide has zero area, so its fill
/// covers no cell: painting with it returns the buffer unchanged.
pub proof fn lemma_degenerate_triangle_paints_nothing(
    rows: Seq<Seq<Option<Color>>>,
    p: Point2D,
    c: Color,
)
    ensures
        paint_tri(rows, Triangle(p, p, p), c) == rows,
{
    assert(paint_tri(rows, Triangle(p, p, p), c) =~~= rows);
}

/// The first fill triangle of the sub-quad at `(row, col)` of a projected
/// 4-by-4 marker grid.
pub open spec fn face_quad_tri_a(ms: Seq<Point2D>, row: int, col: int) -> Triangle {
    Triangle(ms[row * 4 + col], ms[row * 4 + col + 1], ms[(row + 1) * 4 + col + 1])
}

/// The second fill triangle of the sub-quad at `(row, col)` of a projected
/// 4-by-4 marker grid.
pub open spec fn face_quad_tri_b(ms: Seq<Point2D>, row: int, col: int) -> Triangle {
    Triangle(ms[row * 4 + col], ms[(row + 1) * 4 + col + 1], ms[(row + 1) * 4 + col])
}

/// The buffer after painting the first `k` of the nine sub-quads of a
/// face, in row-major order, each as two triangles of its sticker colour.
pub open spec fn paint_face_quads(
    rows: Seq<Seq<Option<Color>>>,
    ms: Seq<Point2D>,
    colors: Seq<Color>,
    k: int,
) -> Seq<Seq<Option<Color>>>
    decreases k,
{
    if k <= 0 {
        rows
    } else {
        let q = k - 1;
        let row = q / 3;
        let col = q % 3;
        paint_tri(
            paint_tri(paint_face_quads(rows, ms, colors, q), face_quad_tri_a(ms, row, col), colors[q]),
            face_quad_tri_b(ms, row, col),
            colors[q],
        )
    }
}

/// The first fill triangle of strip row `row` of a projected 2-by-4
/// marker grid.
pub open spec fn strip_quad_tri_a(ms: Seq<Point2D>, row: int) -> Triangle {
    Triangle(ms[row * 2], ms[row * 2 + 1], ms[(row + 1) * 2 + 1])
}

/// The second fill triangle of strip row `row` of a projected 2-by-4
/// marker grid.
pub open spec fn strip_quad_tri_b(ms: Seq<Point2D>, row: int) -> Triangle {
    Triangle(ms[row * 2], ms[(row + 1) * 2 + 1], ms[(row + 1) * 2])
}

/// The buffer after painting the first `k` of the three quads of a strip,
/// each as two triangles of its colour.
pub open spec fn paint_strip_quads(
    rows: Seq<Seq<Option<Color>>>,
    ms: Seq<Point2D>,
    colors: Seq<Color>,
    k: int,
) -> Seq<Seq<Option<Color>>>
    decreases k,
{
    if k <= 0 {
        rows
    } else {
        let q = k - 1;
        paint_tri(
            paint_tri(paint_strip_quads(rows, ms, colors, q), strip_quad_tri_a(ms, q), colors[q]),
            strip_quad_tri_b(ms, q),
            colors[q],
        )
    }
}

impl Screen {
    /// An empty screen of `size_x` by `size_y` cells, all background.
    pub fn new(size_x: usize, size_y: usize) -> (s: Screen)
        ensures
            screen_wf(s),
            s.size_x == size_x,
            s.size_y == size_y,
            forall|y: int, x: int|
                0 <= y < size_y && 0 <= x < size_x ==> screen_cells(s)[y][x] is None,
    {
        let mut rows: Vec<Vec<Option<Color>>> = Vec::new();
        let mut y: usize = 0;
        while y < size_y
            invariant
                y <= size_y,
                rows@.len() == y,
                forall|i: int| 0 <= i < y ==> (#[trigger] rows@[i])@.len() == size_x,
                forall|i: int, j: int|
                    0 <= i < y && 0 <= j < size_x ==> #[trigger] rows@[i]@[j] is None,
            decreases size_y - y,
        {
            let mut row: Vec<Option<Color>> = Vec::new();
            let mut x: usize = 0;
            while x < size_x
                invariant
                    x <= size_x,
                    row@.len() == x,
                    forall|j: int| 0 <= j < x ==> row@[j] is None,
                decreases size_x - x,
            {
                row.push(None);
                x += 1;
            }
            rows.push(row);
            y += 1;
        }
        Screen { size_x, size_y, screen: rows }
    }

    /// The colour at cell `(x, y)`, counted from the bottom-left corner.
    pub fn color_at(&self, x: i16, y: i16) -> (r: Option<Color>)
        requires
            screen_wf(*self),
            0 <= x < self.size_x,
            0 <= y < self.size_y,
        ensures
            r == screen_cells(*self)[self.size_y - 1 - y][x as int],
    {
        self.screen[self.size_y - (y as usize) - 1][x as usize]
    }

    /// Reset every cell to background.
    pub fn clear_screen(&mut self)
        requires
            screen_wf(*old(self)),
        ensures
            screen_wf(*final(self)),
            final(self).size_x == old(self).size_x,
            final(self).size_y == old(self).size_y,
            forall|y: int, x: int|
                0 <= y < final(self).size_y && 0 <= x < final(self).size_x ==> screen_cells(
                    *final(self),
                )[y][x] is None,
    {
        let mut y: usize = 0;
        while y < self.size_y
            invariant
                screen_wf(*self),
                self.size_x == old(self).size_x,
                self.size_y == old(self).size_y,
                y <= self.size_y,
                forall|i: int, j: int|
                    0 <= i < y && 0 <= j < self.size_x ==> #[trigger] self.screen@[i]@[j] is None,
            decreases self.size_y - y,
        {
            let mut x: usize = 0;
            while x < self.size_x
                invariant
                    screen_wf(*self),
                    self.size_x == old(self).size_x,
                    self.size_y == old(self).size_y,
                    y < self.size_y,
                    x <= self.size_x,
                    forall|i: int, j: int|
                        0 <= i < y && 0 <= j < self.size_x ==> #[trigger] self.screen@[i]@[j] is None,
                    forall|j: int| 0 <= j < x ==> #[trigger] self.screen@[y as int]@[j] is None,
                decreases self.size_x - x,
            {
                self.screen[y][x] = None;
                x += 1;
            }
            y += 1;
        }
    }

    /// Fill one triangle with `color`.  A triangle that is degenerate or
    /// whose corners fall outside the supported coordinate range paints
    /// nothing; cells outside the buffer are skipped.
    pub fn rasterize_triangle(&mut self, tri: &Triangle, color: Color)
        requires
            screen_wf(*old(self)),
        ensures
            screen_wf(*final(self)),
            final(self).size_x == old(self).size_x,
            final(self).size_y == old(self).size_y,
            screen_cells(*final(self)) == paint_tri(screen_cells(*old(self)), *tri, color),
    {
        if !tri.in_range() {
            proof {
                assert(screen_cells(*self) =~~= paint_tri(screen_cells(*old(self)), *tri, color));
            }
            return;
        }
        if tri.is_degenerate() {
            proof {
                assert(screen_cells(*self) =~~= paint_tri(screen_cells(*old(self)), *tri, color));
            }
            return;
        }
        let ax = tri.0.x;
        let bx = tri.1.x;
        let cx = tri.2.x;
        let ay = tri.0.y;
        let by = tri.1.y;
        let cy = tri.2.y;
        let min_x: isize = if ax <= bx && ax <= cx {
            ax
        } else if bx <= cx {
            bx
        } else {
            cx
        };
        let max_x: isize = if ax >= bx && ax >= cx {
            ax
        } else if bx >= cx {
            bx
        } else {
            cx
        };
        let min_y: isize = if ay <= by && ay <= cy {
            ay
        } else if by <= cy {
            by
        } else {
            cy
        };
        let max_y: isize = if ay >= by && ay >= cy {
            ay
        } else if by >= cy {
            by
        } else {
            cy
        };
        if max_x < 0 || max_y < 0 {
            proof {
                assert(screen_cells(*self) =~~= paint_tri(screen_cells(*old(self)), *tri, color));
            }
            return;
        }
        let x_start: usize = if min_x < 0 {
            0
        } else {
            min_x as usize
        };
        let y_start: usize = if min_y < 0 {
            0
        } else {
            min_y as usize
        };
        if x_start >= self.size_x || y_start >= self.size_y {
            proof {
                assert(screen_cells(*self) =~~= paint_tri(screen_cells(*old(self)), *tri, color));
            }
            return;
        }
        let x_end: usize = if (max_x as usize) >= self.size_x {
            self.size_x - 1
        } else {
            max_x as usize
        };
        let y_end: usize = if (max_y as usize) >= self.size_y {
            self.size_y - 1
        } else {
            max_y as usize
        };
        let mut y: usize = y_start;
        while y <= y_end
            invariant
                screen_wf(*self),
                self.size_x == old(self).size_x,
                self.size_y == old(self).size_y,
                triangle_in_range(*tri),
                doubled_area(tri.0, tri.1, tri.2) != 0,
                tri_min_x(*tri) == min_x as int,
                tri_max_x(*tri) == max_x as int,
                tri_min_y(*tri) == min_y as int,
                tri_max_y(*tri) == max_y as int,
                x_start == max2(min_x as int, 0),
                y_start <= y <= y_end + 1,
                y_start == max2(min_y as int, 0),
                x_end == min2(max_x as int, self.size_x - 1),
                y_end == min2(max_y as int, self.size_y - 1),
                x_start <= x_end < self.size_x,
                y_start <= y_end < self.size_y,
                forall|yy: int, xx: int|
                    0 <= yy < self.size_y && 0 <= xx < self.size_x ==> #[trigger] self.screen@[yy]@[xx] == if yy < y && spec_paints(*tri, xx, yy) {
                        Some(color)
                    } else {
                        old(self).screen@[yy]@[xx]
                    },
            decreases y_end + 1 - y,
        {
            let mut x: usize = x_start;
            while x <= x_end
                invariant
                    screen_wf(*self),
                    self.size_x == old(self).size_x,
                    self.size_y == old(self).size_y,
                    triangle_in_range(*tri),
                    doubled_area(tri.0, tri.1, tri.2) != 0,
                    tri_min_x(*tri) == min_x as int,
                    tri_max_x(*tri) == max_x as int,
                    tri_min_y(*tri) == min_y as int,
                    tri_max_y(*tri) == max_y as int,
                    x_start == max2(min_x as int, 0),
                    y_start == max2(min_y as int, 0),
                    x_start <= x <= x_end + 1,
                    y_start <= y <= y_end,
                    x_end == min2(max_x as int, self.size_x - 1),
                    y_end == min2(max_y as int, self.size_y - 1),
                    x_start <= x_end < self.size_x,
                    y_start <= y_end < self.size_y,
                    forall|yy: int, xx: int|
                        0 <= yy < self.size_y && 0 <= xx < self.size_x && yy != y ==> #[trigger] self.screen@[yy]@[xx] == if yy < y && spec_paints(
                            *tri,
                            xx,
                            yy,
                        ) {
                            Some(color)
                        } else {
                            old(self).screen@[yy]@[xx]
                        },
                    forall|xx: int|
                        0 <= xx < self.size_x ==> #[trigger] self.screen@[y as int]@[xx] == if xx < x && spec_paints(*tri, xx, y as int) {
                            Some(color)
                        } else {
                            old(self).screen@[y as int]@[xx]
                        },
                decreases x_end + 1 - x,
            {
                let p = Point2D { x: x as isize, y: y as isize };
                if tri.point_in_triangle(p) {
                    self.screen[y][x] = Some(color);
                }
                x += 1;
            }
            y += 1;
        }
        proof {
            assert(screen_cells(*self) =~~= paint_tri(screen_cells(*old(self)), *tri, color));
        }
    }

    /// Paint one projected face: nine sub-quads from a 16-point marker
    /// grid, in row-major order, each split into two triangles of its
    /// sticker's colour.
    pub fn render_face(&mut self, markers: &Vec<Point2D>, grid_face: &GridFace)
        requires
            screen_wf(*old(self)),
            markers@.len() == 16,
        ensures
            screen_wf(*final(self)),
            final(self).size_x == old(self).size_x,
            final(self).size_y == old(self).size_y,
            screen_cells(*final(self)) == paint_face_quads(
                screen_cells(*old(self)),
                markers@,
                face_seq(*grid_face),
                9,
            ),
    {
        let mut k: usize = 0;
        while k < 9
            invariant
                screen_wf(*self),
                self.size_x == old(self).size_x,
                self.size_y == old(self).size_y,
                markers@.len() == 16,
                k <= 9,
                screen_cells(*self) == paint_face_quads(
                    screen_cells(*old(self)),
                    markers@,
                    face_seq(*grid_face),
                    k as int,
                ),
            decreases 9 - k,
        {
            let row = k / 3;
            let col = k % 3;
            let t1 = Triangle(
                markers[row * 4 + col],
                markers[row * 4 + col + 1],
                markers[(row + 1) * 4 + col + 1],
            );
            let t2 = Triangle(
                markers[row * 4 + col],
                markers[(row + 1) * 4 + col + 1],
                markers[(row + 1) * 4 + col],
            );
            let color = grid_face.grid[row][col];
            proof {
                assert(color == face_seq(*grid_face)[k as int]);
                assert(t1 == face_quad_tri_a(markers@, k as int / 3, k as int % 3));
                assert(t2 == face_quad_tri_b(markers@, k as int / 3, k as int % 3));
            }
            self.rasterize_triangle(&t1, color);
            self.rasterize_triangle(&t2, color);
            k += 1;
        }
    }

    /// Paint one projected strip of a turning slice: three quads from an
    /// 8-point marker grid, each split into two triangles of its colour.
    pub fn render_face_slice(&mut self, markers: &Vec<Point2D>, colors: &[Color; 3])
        requires
            screen_wf(*old(self)),
            markers@.len() == 8,
        ensures
            screen_wf(*final(self)),
            final(self).size_x == old(self).size_x,
            final(self).size_y == old(self).size_y,
            screen_cells(*final(self)) == paint_strip_quads(
                screen_cells(*old(self)),
                markers@,
                colors@,
                3,
            ),
    {
        let mut k: usize = 0;
        while k < 3
            invariant
                screen_wf(*self),
                self.size_x == old(self).size_x,
                self.size_y == old(self).size_y,
                markers@.len() == 8,
                k <= 3,
                screen_cells(*self) == paint_strip_quads(
                    screen_cells(*old(self)),
                    markers@,
                    colors@,
                    k as int,
                ),
            decreases 3 - k,
        {
            let t1 = Triangle(markers[k * 2], markers[k * 2 + 1], markers[(k + 1) * 2 + 1]);
            let t2 = Triangle(markers[k * 2], markers[(k + 1) * 2 + 1], markers[(k + 1) * 2]);
            let color = colors[k];
            proof {
                assert(t1 == strip_quad_tri_a(markers@, k as int));
                assert(t2 == strip_quad_tri_b(markers@, k as int));
            }
            self.rasterize_triangle(&t1, color);
            self.rasterize_triangle(&t2, color);
            k += 1;
        }
    }
}

} // verus!
