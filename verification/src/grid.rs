//! The sticker-state engine: six 3x3 faces of colours, turned by face and
//! middle-layer moves with exact permutation semantics.
//!
//! Every face is modelled in specifications as a row-major sequence of nine
//! colours, and the whole grid as a sequence of six such faces.  A move is a
//! bijection on the 54 stickers; the statement and proof that each move is
//! undone by its inverse live here as well.

use vstd::prelude::*;

use crate::cube_utils::{Axis, Color};
use crate::slice::{CubeMove, CubeSliceOrder};

verus! {

/// The sense of a turn: a quarter turn either way, or a half turn.
#[derive(Debug, Clone, Copy, PartialEq, Eq, Structural)]
pub enum MoveDirection {
    Clockwise,
    CounterClockwise,
    Double,
}

/// The direction that undoes `d`: quarter turns swap sense, a half turn is
/// its own inverse.
pub open spec fn flip_dir(d: MoveDirection) -> MoveDirection {
    match d {
        MoveDirection::Clockwise => MoveDirection::CounterClockwise,
        MoveDirection::CounterClockwise => MoveDirection::Clockwise,
        MoveDirection::Double => MoveDirection::Double,
    }
}

impl MoveDirection {
    /// The inverse direction of this one.
    pub fn flip(self) -> (r: MoveDirection)
        ensures
            r == flip_dir(self),
    {
        match self {
            Self::Clockwise => Self::CounterClockwise,
            Self::CounterClockwise => Self::Clockwise,
            Self::Double => Self::Double,
        }
    }
}

/// A turnable layer: one of the six faces, or one of the three middle
/// layers (`MiddleX` between `Left` and `Right`, `MiddleY` between `Bottom`
/// and `Top`, `MiddleZ` between `Front` and `Back`).
#[derive(Debug, Clone, Copy, PartialEq, Eq, Hash, Structural)]
pub enum GridSide {
    Top,
    Front,
    Bottom,
    Left,
    Right,
    Back,
    MiddleX,
    MiddleY,
    MiddleZ,
}

/// The storage index of a face side in the grid's face array.  Middle layers
/// store no face; they are mapped out of range.
pub open spec fn side_idx(s: GridSide) -> int {
    match s {
        GridSide::Top => 0,
        GridSide::Left => 1,
        GridSide::Front => 2,
        GridSide::Right => 3,
        GridSide::Back => 4,
        GridSide::Bottom => 5,
        _ => 6,
    }
}

/// The face side stored at index `i`; meaningful for `0 <= i < 6`.
pub open spec fn side_of_idx(i: int) -> GridSide {
    if i == 0 {
        GridSide::Top
    } else if i == 1 {
        GridSide::Left
    } else if i == 2 {
        GridSide::Front
    } else if i == 3 {
        GridSide::Right
    } else if i == 4 {
        GridSide::Back
    } else {
        GridSide::Bottom
    }
}

/// Whether `s` is one of the three middle layers.
pub open spec fn is_middle_side(s: GridSide) -> bool {
    match s {
        GridSide::MiddleX | GridSide::MiddleY | GridSide::MiddleZ => true,
        _ => false,
    }
}

/// The axis that `s` turns about.
pub open spec fn axis_of(s: GridSide) -> Axis {
    match s {
        GridSide::Top => Axis::Y,
        GridSide::Left => Axis::X,
        GridSide::Front => Axis::Z,
        GridSide::Right => Axis::X,
        GridSide::Back => Axis::Z,
        GridSide::Bottom => Axis::Y,
        GridSide::MiddleX => Axis::X,
        GridSide::MiddleY => Axis::Y,
        GridSide::MiddleZ => Axis::Z,
    }
}

/// The layer position of `s` along its own axis.
pub open spec fn order_of(s: GridSide) -> CubeSliceOrder {
    match s {
        GridSide::Top => CubeSliceOrder::FIRST,
        GridSide::Left => CubeSliceOrder::FIRST,
        GridSide::Front => CubeSliceOrder::FIRST,
        GridSide::Right => CubeSliceOrder::LAST,
        GridSide::Back => CubeSliceOrder::LAST,
        GridSide::Bottom => CubeSliceOrder::LAST,
        GridSide::MiddleX => CubeSliceOrder::MIDDLE,
        GridSide::MiddleY => CubeSliceOrder::MIDDLE,
        GridSide::MiddleZ => CubeSliceOrder::MIDDLE,
    }
}

/// The middle layer that turns about `axis`.
pub open spec fn middle_of_axis(axis: Axis) -> GridSide {
    match axis {
        Axis::X => GridSide::MiddleX,
        Axis::Y => GridSide::MiddleY,
        Axis::Z => GridSide::MiddleZ,
    }
}

/// The representative face side adjacent to a middle layer; face sides map
/// to themselves.
pub open spec fn middle_adjacent(s: GridSide) -> GridSide {
    match s {
        GridSide::MiddleX => GridSide::Left,
        GridSide::MiddleY => GridSide::Bottom,
        GridSide::MiddleZ => GridSide::Front,
        _ => s,
    }
}

impl GridSide {
    /// The storage index of this face side.  Middle layers have no stored
    /// face and are excluded.
    pub fn idx(&self) -> (r: usize)
        requires
            !is_middle_side(*self),
        ensures
            r == side_idx(*self),
            r < 6,
    {
        match self {
            GridSide::Top => 0,
            GridSide::Left => 1,
            GridSide::Front => 2,
            GridSide::Right => 3,
            GridSide::Back => 4,
            GridSide::Bottom => 5,
            _ => unreached(),
        }
    }

    /// The face side stored at index `idx`.
    pub fn from_idx(idx: usize) -> (r: GridSide)
        requires
            idx < 6,
        ensures
            r == side_of_idx(idx as int),
    {
        match idx {
            0 => GridSide::Top,
            1 => GridSide::Left,
            2 => GridSide::Front,
            3 => GridSide::Right,
            4 => GridSide::Back,
            _ => GridSide::Bottom,
        }
    }

    /// The middle layer turning about `axis`.
    pub fn middle_layer_from_axis(axis: &Axis) -> (r: GridSide)
        ensures
            r == middle_of_axis(*axis),
    {
        match axis {
            Axis::X => GridSide::MiddleX,
            Axis::Y => GridSide::MiddleY,
            Axis::Z => GridSide::MiddleZ,
        }
    }

    /// The axis this side turns about.
    pub fn axis(&self) -> (r: Axis)
        ensures
            r == axis_of(*self),
    {
        match self {
            GridSide::Top => Axis::Y,
            GridSide::Left => Axis::X,
            GridSide::Front => Axis::Z,
            GridSide::Right => Axis::X,
            GridSide::Back => Axis::Z,
            GridSide::Bottom => Axis::Y,
            GridSide::MiddleX => Axis::X,
            GridSide::MiddleY => Axis::Y,
            GridSide::MiddleZ => Axis::Z,
        }
    }

    /// The layer position of this side along its axis.
    pub fn order(&self) -> (r: CubeSliceOrder)
        ensures
            r == order_of(*self),
    {
        match self {
            GridSide::Top => CubeSliceOrder::FIRST,
            GridSide::Left => CubeSliceOrder::FIRST,
            GridSide::Front => CubeSliceOrder::FIRST,
            GridSide::Right => CubeSliceOrder::LAST,
            GridSide::Back => CubeSliceOrder::LAST,
            GridSide::Bottom => CubeSliceOrder::LAST,
            GridSide::MiddleX => CubeSliceOrder::MIDDLE,
            GridSide::MiddleY => CubeSliceOrder::MIDDLE,
            GridSide::MiddleZ => CubeSliceOrder::MIDDLE,
        }
    }

    /// Whether this side is a middle layer.
    pub fn is_middle(&self) -> (r: bool)
        ensures
            r == is_middle_side(*self),
    {
        match self {
            GridSide::MiddleX => true,
            GridSide::MiddleY => true,
            GridSide::MiddleZ => true,
            _ => false,
        }
    }

    /// The representative face side adjacent to this middle layer; a face
    /// side is returned unchanged.
    pub fn middle_layer_adjacent(self) -> (r: GridSide)
        ensures
            r == middle_adjacent(self),
    {
        match self {
            GridSide::MiddleX => GridSide::Left,
            GridSide::MiddleY => GridSide::Bottom,
            GridSide::MiddleZ => GridSide::Front,
            _ => self,
        }
    }
}

/// One physical face of the puzzle: a 3x3 matrix of sticker colours.
#[derive(Debug, Clone, Copy, PartialEq, Eq)]
pub struct GridFace {
    pub grid: [[Color; 3]; 3],
}

/// The row-major sequence of the nine stickers of `f`.
pub open spec fn face_seq(f: GridFace) -> Seq<Color> {
    seq![
        f.grid[0][0],
        f.grid[0][1],
        f.grid[0][2],
        f.grid[1][0],
        f.grid[1][1],
        f.grid[1][2],
        f.grid[2][0],
        f.grid[2][1],
        f.grid[2][2],
    ]
}

/// A face whose nine stickers all show `c`.
pub open spec fn solid_face(c: Color) -> Seq<Color> {
    seq![c, c, c, c, c, c, c, c, c]
}

/// A quarter turn of a face, clockwise: row-major position `3r + c` takes
/// the sticker from position `3(2 - c) + r`.
pub open spec fn face_cw(f: Seq<Color>) -> Seq<Color> {
    seq![f[6], f[3], f[0], f[7], f[4], f[1], f[8], f[5], f[2]]
}

/// A quarter turn of a face, counter-clockwise.
pub open spec fn face_ccw(f: Seq<Color>) -> Seq<Color> {
    seq![f[2], f[5], f[8], f[1], f[4], f[7], f[0], f[3], f[6]]
}

/// A face turned in direction `d`; a half turn is two clockwise turns.
pub open spec fn face_turned(f: Seq<Color>, d: MoveDirection) -> Seq<Color> {
    match d {
        MoveDirection::Clockwise => face_cw(f),
        MoveDirection::CounterClockwise => face_ccw(f),
        MoveDirection::Double => face_cw(face_cw(f)),
    }
}

impl GridFace {
    /// A face whose stickers all show `color`.
    pub fn new(color: Color) -> (r: GridFace)
        ensures
            face_seq(r) == solid_face(color),
    {
        GridFace { grid: [[color, color, color], [color, color, color], [color, color, color]] }
    }

    /// A face of neutral stickers, used for internal surfaces.
    pub fn empty() -> (r: GridFace)
        ensures
            face_seq(r) == solid_face(Color::Gray),
    {
        Self::new(Color::Gray)
    }

    /// Turn this face in place in direction `direction`.
    pub fn rotate(&mut self, direction: &MoveDirection)
        ensures
            face_seq(*final(self)) == face_turned(face_seq(*old(self)), *direction),
    {
        match direction {
            MoveDirection::Clockwise => self.rotate_clockwise(),
            MoveDirection::CounterClockwise => self.rotate_counter_clockwise(),
            MoveDirection::Double => {
                self.rotate_clockwise();
                self.rotate_clockwise();
            },
        }
    }

    /// Turn this face a quarter turn clockwise: a four-cycle of the corners
    /// and a four-cycle of the edges, the centre fixed.
    pub fn rotate_clockwise(&mut self)
        ensures
            face_seq(*final(self)) == face_cw(face_seq(*old(self))),
    {
        let g = self.grid;
        self.grid = [
            [g[2][0], g[1][0], g[0][0]],
            [g[2][1], g[1][1], g[0][1]],
            [g[2][2], g[1][2], g[0][2]],
        ];
    }

    /// Turn this face a quarter turn counter-clockwise.
    pub fn rotate_counter_clockwise(&mut self)
        ensures
            face_seq(*final(self)) == face_ccw(face_seq(*old(self))),
    {
        let g = self.grid;
        self.grid = [
            [g[0][2], g[1][2], g[2][2]],
            [g[0][1], g[1][1], g[2][1]],
            [g[0][0], g[1][0], g[2][0]],
        ];
    }
}

/// How a 3-sticker border strip is read off a face, in the fixed canonical
/// reading order of the move engine (row-major positions, three per kind).
#[derive(Debug, Clone, Copy, PartialEq, Eq, Structural)]
pub enum SliceType {
    Top,
    Bottom,
    Left,
    Right,
    Vertical,
    VerticalFlipped,
    Horizontal,
    HorizontalFlipped,
}

/// The three row-major positions of strip kind `t`, in reading order.
pub open spec fn strip_positions(t: SliceType) -> Seq<int> {
    match t {
        SliceType::Top => seq![0, 1, 2],
        SliceType::Bottom => seq![8, 7, 6],
        SliceType::Left => seq![6, 3, 0],
        SliceType::Right => seq![2, 5, 8],
        SliceType::Vertical => seq![7, 4, 1],
        SliceType::VerticalFlipped => seq![1, 4, 7],
        SliceType::Horizontal => seq![3, 4, 5],
        SliceType::HorizontalFlipped => seq![5, 4, 3],
    }
}

/// The strip of kind `t` read off face `f`.
pub open spec fn read_strip(f: Seq<Color>, t: SliceType) -> Seq<Color> {
    seq![f[strip_positions(t)[0]], f[strip_positions(t)[1]], f[strip_positions(t)[2]]]
}

/// Face `f` with the strip of kind `t` overwritten by the colours `c`.
pub open spec fn write_strip(f: Seq<Color>, t: SliceType, c: Seq<Color>) -> Seq<Color> {
    f.update(strip_positions(t)[0], c[0]).update(strip_positions(t)[1], c[1]).update(
        strip_positions(t)[2],
        c[2],
    )
}

/// One border strip of one face, as touched by a turn of an adjacent layer.
#[derive(Debug, Clone, Copy)]
pub struct NeighborSlice {
    pub side: GridSide,
    pub slice_type: SliceType,
}

/// A neighbour strip is valid when it lies on a stored face.
pub open spec fn neighbor_wf(ns: NeighborSlice) -> bool {
    !is_middle_side(ns.side)
}

/// The six faces of the puzzle, each a row-major sequence of nine colours.
pub open spec fn grid_seq(g: Grid) -> Seq<Seq<Color>> {
    Seq::new(6, |i: int| face_seq(g.faces[i]))
}

/// The colour assigned to the face stored at index `i` in the solved state.
pub open spec fn assigned_color(i: int) -> Color {
    if i == 0 {
        Color::White
    } else if i == 1 {
        Color::Orange
    } else if i == 2 {
        Color::Green
    } else if i == 3 {
        Color::Red
    } else if i == 4 {
        Color::Blue
    } else {
        Color::Yellow
    }
}

/// The solved grid: every face monochrome in its assigned colour.
pub open spec fn solved_grid() -> Seq<Seq<Color>> {
    Seq::new(6, |i: int| solid_face(assigned_color(i)))
}

/// The four neighbour strips of `s`, in the fixed rotational order used by
/// the move engine.
pub open spec fn neighbor_sides(s: GridSide) -> Seq<(GridSide, SliceType)> {
    match s {
        GridSide::Top => seq![
            (GridSide::Back, SliceType::Top),
            (GridSide::Right, SliceType::Top),
            (GridSide::Front, SliceType::Top),
            (GridSide::Left, SliceType::Top),
        ],
        GridSide::Front => seq![
            (GridSide::Top, SliceType::Bottom),
            (GridSide::Right, SliceType::Left),
            (GridSide::Bottom, SliceType::Top),
            (GridSide::Left, SliceType::Right),
        ],
        GridSide::Bottom => seq![
            (GridSide::Back, SliceType::Bottom),
            (GridSide::Right, SliceType::Bottom),
            (GridSide::Front, SliceType::Bottom),
            (GridSide::Left, SliceType::Bottom),
        ],
        GridSide::Left => seq![
            (GridSide::Top, SliceType::Left),
            (GridSide::Front, SliceType::Left),
            (GridSide::Bottom, SliceType::Left),
            (GridSide::Back, SliceType::Right),
        ],
        GridSide::Right => seq![
            (GridSide::Top, SliceType::Right),
            (GridSide::Front, SliceType::Right),
            (GridSide::Bottom, SliceType::Right),
            (GridSide::Back, SliceType::Left),
        ],
        GridSide::Back => seq![
            (GridSide::Top, SliceType::Top),
            (GridSide::Right, SliceType::Right),
            (GridSide::Bottom, SliceType::Bottom),
            (GridSide::Left, SliceType::Left),
        ],
        GridSide::MiddleX => seq![
            (GridSide::Top, SliceType::Vertical),
            (GridSide::Front, SliceType::Vertical),
            (GridSide::Bottom, SliceType::Vertical),
            (GridSide::Back, SliceType::VerticalFlipped),
        ],
        GridSide::MiddleY => seq![
            (GridSide::Back, SliceType::Horizontal),
            (GridSide::Right, SliceType::Horizontal),
            (GridSide::Front, SliceType::Horizontal),
            (GridSide::Left, SliceType::Horizontal),
        ],
        GridSide::MiddleZ => seq![
            (GridSide::Top, SliceType::HorizontalFlipped),
            (GridSide::Right, SliceType::Vertical),
            (GridSide::Bottom, SliceType::Horizontal),
            (GridSide::Left, SliceType::VerticalFlipped),
        ],
    }
}

/// How far the four read strips are rotated to the right before being
/// written back.  The neighbour strips are enumerated in a fixed geometric
/// order rather than a direction-symmetric one, so for `Right`, `Back`,
/// `Bottom` and `MiddleY` the rotation sense is the opposite of the one for
/// the remaining sides; a rotation to the left by one is a rotation to the
/// right by three.
pub open spec fn buffer_shift(s: GridSide, d: MoveDirection) -> int {
    let normal = match s {
        GridSide::Left | GridSide::Top | GridSide::Front | GridSide::MiddleX
            | GridSide::MiddleZ => true,
        _ => false,
    };
    match d {
        MoveDirection::Clockwise => if normal {
            1
        } else {
            3
        },
        MoveDirection::CounterClockwise => if normal {
            3
        } else {
            1
        },
        MoveDirection::Double => 2,
    }
}

/// The new contents of the face holding neighbour strip `k` of `s`, after
/// the turn: it receives the strip that stood `buffer_shift` places before
/// it in the rotational order.
pub open spec fn moved_neighbor(
    g1: Seq<Seq<Color>>,
    s: GridSide,
    d: MoveDirection,
    k: int,
) -> Seq<Color> {
    let n = neighbor_sides(s);
    let j = (k - buffer_shift(s, d)) % 4;
    write_strip(g1[side_idx(n[k].0)], n[k].1, read_strip(g1[side_idx(n[j].0)], n[j].1))
}

/// The whole grid after turning layer `s` in direction `d`: the layer's own
/// face (if it has one) turns in place, and the four neighbour strips cycle.
pub open spec fn spec_move(g: Seq<Seq<Color>>, s: GridSide, d: MoveDirection) -> Seq<Seq<Color>> {
    let g1 = if is_middle_side(s) {
        g
    } else {
        g.update(side_idx(s), face_turned(g[side_idx(s)], d))
    };
    let n = neighbor_sides(s);
    g1.update(side_idx(n[0].0), moved_neighbor(g1, s, d, 0)).update(
        side_idx(n[1].0),
        moved_neighbor(g1, s, d, 1),
    ).update(side_idx(n[2].0), moved_neighbor(g1, s, d, 2)).update(
        side_idx(n[3].0),
        moved_neighbor(g1, s, d, 3),
    )
}

impl NeighborSlice {
    /// The three colours of this strip, in canonical reading order.
    pub fn read_from(&self, grid: &Grid) -> (r: [Color; 3])
        requires
            neighbor_wf(*self),
        ensures
            r@ == read_strip(face_seq(grid.faces[side_idx(self.side)]), self.slice_type),
    {
        let face = &grid.faces[self.side.idx()];
        match self.slice_type {
            SliceType::Top => [face.grid[0][0], face.grid[0][1], face.grid[0][2]],
            SliceType::Bottom => [face.grid[2][2], face.grid[2][1], face.grid[2][0]],
            SliceType::Left => [face.grid[2][0], face.grid[1][0], face.grid[0][0]],
            SliceType::Right => [face.grid[0][2], face.grid[1][2], face.grid[2][2]],
            SliceType::Vertical => [face.grid[2][1], face.grid[1][1], face.grid[0][1]],
            SliceType::VerticalFlipped => [face.grid[0][1], face.grid[1][1], face.grid[2][1]],
            SliceType::Horizontal => [face.grid[1][0], face.grid[1][1], face.grid[1][2]],
            SliceType::HorizontalFlipped => [face.grid[1][2], face.grid[1][1], face.grid[1][0]],
        }
    }

    /// Overwrite this strip with `colors`, in the same reading order.
    fn write_to(&self, grid: &mut Grid, colors: [Color; 3])
        requires
            neighbor_wf(*self),
        ensures
            grid_seq(*final(grid)) == grid_seq(*old(grid)).update(
                side_idx(self.side),
                write_strip(
                    face_seq(old(grid).faces[side_idx(self.side)]),
                    self.slice_type,
                    colors@,
                ),
            ),
    {
        let i = self.side.idx();
        let f = grid.faces[i].grid;
        let c = colors;
        let updated: [[Color; 3]; 3] = match self.slice_type {
            SliceType::Top => [[c[0], c[1], c[2]], f[1], f[2]],
            SliceType::Bottom => [f[0], f[1], [c[2], c[1], c[0]]],
            SliceType::Left => [
                [c[2], f[0][1], f[0][2]],
                [c[1], f[1][1], f[1][2]],
                [c[0], f[2][1], f[2][2]],
            ],
            SliceType::Right => [
                [f[0][0], f[0][1], c[0]],
                [f[1][0], f[1][1], c[1]],
                [f[2][0], f[2][1], c[2]],
            ],
            SliceType::Vertical => [
                [f[0][0], c[2], f[0][2]],
                [f[1][0], c[1], f[1][2]],
                [f[2][0], c[0], f[2][2]],
            ],
            SliceType::VerticalFlipped => [
                [f[0][0], c[0], f[0][2]],
                [f[1][0], c[1], f[1][2]],
                [f[2][0], c[2], f[2][2]],
            ],
            SliceType::Horizontal => [f[0], [c[0], c[1], c[2]], f[2]],
            SliceType::HorizontalFlipped => [f[0], [c[2], c[1], c[0]], f[2]],
        };
        grid.faces[i] = GridFace { grid: updated };
        proof {
            assert(grid_seq(*grid) =~~= grid_seq(*old(grid)).update(
                side_idx(self.side),
                write_strip(
                    face_seq(old(grid).faces[side_idx(self.side)]),
                    self.slice_type,
                    colors@,
                ),
            ));
        }
    }
}

/// The authoritative sticker state of the puzzle: six faces, indexed by
/// `GridSide::idx`.
pub struct Grid {
    pub faces: [GridFace; 6],
}

impl Grid {
    /// The solved puzzle, with the fixed canonical colour-to-side
    /// assignment.
    pub fn new() -> (r: Grid)
        ensures
            grid_seq(r) == solved_grid(),
    {
        let r = Grid {
            faces: [
                GridFace::new(Color::White),
                GridFace::new(Color::Orange),
                GridFace::new(Color::Green),
                GridFace::new(Color::Red),
                GridFace::new(Color::Blue),
                GridFace::new(Color::Yellow),
            ],
        };
        proof {
            assert(grid_seq(r) =~~= solved_grid());
        }
        r
    }

    /// Apply the turn described by `mv` to the sticker state.
    pub fn apply_move(&mut self, mv: CubeMove)
        ensures
            grid_seq(*final(self)) == spec_move(grid_seq(*old(self)), mv.grid_side, mv.direction),
    {
        self.move_face(mv.grid_side, mv.direction);
    }

    /// Whether every sticker shows its face's assigned colour.
    pub fn is_solved(&self) -> (r: bool)
        ensures
            r == (grid_seq(*self) == solved_grid()),
    {
        let mut i: usize = 0;
        while i < 6
            invariant
                i <= 6,
                forall|k: int| 0 <= k < i ==> face_seq(self.faces[k]) == solid_face(
                    assigned_color(k),
                ),
            decreases 6 - i,
        {
            let face = &self.faces[i];
            let color = GridSide::from_idx(i).assigned();
            let mut r: usize = 0;
            while r < 3
                invariant
                    r <= 3,
                    i < 6,
                    color == assigned_color(i as int),
                    face == &self.faces[i as int],
                    forall|p: int, q: int| 0 <= p < r && 0 <= q < 3 ==> face.grid[p][q] == color,
                decreases 3 - r,
            {
                let mut cidx: usize = 0;
                while cidx < 3
                    invariant
                        cidx <= 3,
                        r < 3,
                        i < 6,
                        color == assigned_color(i as int),
                        face == &self.faces[i as int],
                        forall|p: int, q: int| 0 <= p < r && 0 <= q < 3 ==> face.grid[p][q]
                            == color,
                        forall|q: int| 0 <= q < cidx ==> face.grid[r as int][q] == color,
                    decreases 3 - cidx,
                {
                    if face.grid[r][cidx] != color {
                        proof {
                            assert(face_seq(self.faces[i as int])[3 * (r as int) + cidx]
                                != assigned_color(i as int));
                            assert(grid_seq(*self)[i as int] != solved_grid()[i as int]);
                        }
                        return false;
                    }
                    cidx += 1;
                }
                r += 1;
            }
            proof {
                assert(face_seq(self.faces[i as int]) =~= solid_face(assigned_color(i as int)));
            }
            i += 1;
        }
        proof {
            assert(grid_seq(*self) =~~= solved_grid());
        }
        true
    }

    /// Turn layer `side` in direction `direction`: rotate the layer's own
    /// face in place where it has one, then cycle the four neighbour strips.
    #[verifier::rlimit(60)]
    #[verifier::spinoff_prover]
    pub fn move_face(&mut self, side: GridSide, direction: MoveDirection)
        ensures
            grid_seq(*final(self)) == spec_move(grid_seq(*old(self)), side, direction),
    {
        if !side.is_middle() {
            let idx = side.idx();
            let mut f = self.faces[idx];
            f.rotate(&direction);
            self.faces[idx] = f;
            proof {
                assert(grid_seq(*self) =~~= grid_seq(*old(self)).update(
                    side_idx(side),
                    face_turned(face_seq(old(self).faces[side_idx(side)]), direction),
                ));
            }
        }
        let ghost g1 = grid_seq(*self);

        let neighbors = self.get_neighbors(side);
        let b0 = neighbors[0].read_from(self);
        let b1 = neighbors[1].read_from(self);
        let b2 = neighbors[2].read_from(self);
        let b3 = neighbors[3].read_from(self);

        let shift = Grid::shift_amount(side, direction);
        let (c0, c1, c2, c3) = if shift == 1 {
            (b3, b0, b1, b2)
        } else if shift == 2 {
            (b2, b3, b0, b1)
        } else {
            (b1, b2, b3, b0)
        };

        let ghost n = neighbor_sides(side);
        proof {
            lemma_neighbors_distinct(side);
            let sh = buffer_shift(side, direction);
            assert(c0@ == read_strip(g1[side_idx(n[(0 - sh) % 4].0)], n[(0 - sh) % 4].1));
            assert(c1@ == read_strip(g1[side_idx(n[(1 - sh) % 4].0)], n[(1 - sh) % 4].1));
            assert(c2@ == read_strip(g1[side_idx(n[(2 - sh) % 4].0)], n[(2 - sh) % 4].1));
            assert(c3@ == read_strip(g1[side_idx(n[(3 - sh) % 4].0)], n[(3 - sh) % 4].1));
        }

        neighbors[0].write_to(self, c0);
        let ghost m1 = grid_seq(*self);
        proof {
            assert(m1 =~~= g1.update(side_idx(n[0].0), moved_neighbor(g1, side, direction, 0)));
        }
        neighbors[1].write_to(self, c1);
        let ghost m2 = grid_seq(*self);
        proof {
            assert(m1[side_idx(n[1].0)] == g1[side_idx(n[1].0)]);
            assert(m2 =~~= m1.update(side_idx(n[1].0), moved_neighbor(g1, side, direction, 1)));
        }
        neighbors[2].write_to(self, c2);
        let ghost m3 = grid_seq(*self);
        proof {
            assert(m2[side_idx(n[2].0)] == g1[side_idx(n[2].0)]);
            assert(m3 =~~= m2.update(side_idx(n[2].0), moved_neighbor(g1, side, direction, 2)));
        }
        neighbors[3].write_to(self, c3);
        proof {
            assert(m3[side_idx(n[3].0)] == g1[side_idx(n[3].0)]);
            assert(grid_seq(*self) =~~= m3.update(
                side_idx(n[3].0),
                moved_neighbor(g1, side, direction, 3),
            ));
            assert(grid_seq(*self) =~~= spec_move(grid_seq(*old(self)), side, direction));
        }
    }

    /// The rightward rotation applied to the strip buffers, as an
    /// executable counterpart of `buffer_shift`.
    fn shift_amount(side: GridSide, direction: MoveDirection) -> (r: usize)
        ensures
            r == buffer_shift(side, direction),
            1 <= r <= 3,
    {
        let normal = match side {
            GridSide::Left | GridSide::Top | GridSide::Front | GridSide::MiddleX
                | GridSide::MiddleZ => true,
            _ => false,
        };
        match direction {
            MoveDirection::Clockwise => if normal {
                1
            } else {
                3
            },
            MoveDirection::CounterClockwise => if normal {
                3
            } else {
                1
            },
            MoveDirection::Double => 2,
        }
    }

    /// The four neighbour strips of `side`, in the fixed rotational order of
    /// the move engine.
    pub fn get_neighbors(&self, side: GridSide) -> (r: [NeighborSlice; 4])
        ensures
            forall|k: int| 0 <= k < 4 ==> #[trigger] r@[k] == (NeighborSlice {
                side: neighbor_sides(side)[k].0,
                slice_type: neighbor_sides(side)[k].1,
            }),
            forall|k: int| 0 <= k < 4 ==> neighbor_wf(#[trigger] r@[k]),
    {
        let r = match side {
            GridSide::Top => [
                NeighborSlice { slice_type: SliceType::Top, side: GridSide::Back },
                NeighborSlice { slice_type: SliceType::Top, side: GridSide::Right },
                NeighborSlice { slice_type: SliceType::Top, side: GridSide::Front },
                NeighborSlice { slice_type: SliceType::Top, side: GridSide::Left },
            ],
            GridSide::Front => [
                NeighborSlice { slice_type: SliceType::Bottom, side: GridSide::Top },
                NeighborSlice { slice_type: SliceType::Left, side: GridSide::Right },
                NeighborSlice { slice_type: SliceType::Top, side: GridSide::Bottom },
                NeighborSlice { slice_type: SliceType::Right, side: GridSide::Left },
            ],
            GridSide::Bottom => [
                NeighborSlice { slice_type: SliceType::Bottom, side: GridSide::Back },
                NeighborSlice { slice_type: SliceType::Bottom, side: GridSide::Right },
                NeighborSlice { slice_type: SliceType::Bottom, side: GridSide::Front },
                NeighborSlice { slice_type: SliceType::Bottom, side: GridSide::Left },
            ],
            GridSide::Left => [
                NeighborSlice { slice_type: SliceType::Left, side: GridSide::Top },
                NeighborSlice { slice_type: SliceType::Left, side: GridSide::Front },
                NeighborSlice { slice_type: SliceType::Left, side: GridSide::Bottom },
                NeighborSlice { slice_type: SliceType::Right, side: GridSide::Back },
            ],
            GridSide::Right => [
                NeighborSlice { slice_type: SliceType::Right, side: GridSide::Top },
                NeighborSlice { slice_type: SliceType::Right, side: GridSide::Front },
                NeighborSlice { slice_type: SliceType::Right, side: GridSide::Bottom },
                NeighborSlice { slice_type: SliceType::Left, side: GridSide::Back },
            ],
            GridSide::Back => [
                NeighborSlice { slice_type: SliceType::Top, side: GridSide::Top },
                NeighborSlice { slice_type: SliceType::Right, side: GridSide::Right },
                NeighborSlice { slice_type: SliceType::Bottom, side: GridSide::Bottom },
                NeighborSlice { slice_type: SliceType::Left, side: GridSide::Left },
            ],
            GridSide::MiddleX => [
                NeighborSlice { slice_type: SliceType::Vertical, side: GridSide::Top },
                NeighborSlice { slice_type: SliceType::Vertical, side: GridSide::Front },
                NeighborSlice { slice_type: SliceType::Vertical, side: GridSide::Bottom },
                NeighborSlice { slice_type: SliceType::VerticalFlipped, side: GridSide::Back },
            ],
            GridSide::MiddleY => [
                NeighborSlice { slice_type: SliceType::Horizontal, side: GridSide::Back },
                NeighborSlice { slice_type: SliceType::Horizontal, side: GridSide::Right },
                NeighborSlice { slice_type: SliceType::Horizontal, side: GridSide::Front },
                NeighborSlice { slice_type: SliceType::Horizontal, side: GridSide::Left },
            ],
            GridSide::MiddleZ => [
                NeighborSlice { slice_type: SliceType::HorizontalFlipped, side: GridSide::Top },
                NeighborSlice { slice_type: SliceType::Vertical, side: GridSide::Right },
                NeighborSlice { slice_type: SliceType::Horizontal, side: GridSide::Bottom },
                NeighborSlice { slice_type: SliceType::VerticalFlipped, side: GridSide::Left },
            ],
        };
        r
    }
}

impl GridSide {
    /// The colour assigned to this face side in the solved state.
    fn assigned(self) -> (r: Color)
        requires
            !is_middle_side(self),
        ensures
            r == assigned_color(side_idx(self)),
    {
        match self {
            GridSide::Top => Color::White,
            GridSide::Left => Color::Orange,
            GridSide::Front => Color::Green,
            GridSide::Right => Color::Red,
            GridSide::Back => Color::Blue,
            GridSide::Bottom => Color::Yellow,
            _ => unreached(),
        }
    }
}

/// A grid value is well formed when it holds six faces of nine stickers
/// each; every `Grid` view is of this shape.
pub open spec fn grid_wf(g: Seq<Seq<Color>>) -> bool {
    g.len() == 6 && (forall|i: int| 0 <= i < 6 ==> (#[trigger] g[i]).len() == 9)
}

/// The view of every `Grid` is well formed.
pub proof fn lemma_grid_seq_wf(g: Grid)
    ensures
        grid_wf(grid_seq(g)),
{
}

/// A turn keeps the grid well formed.
pub proof fn lemma_move_wf(g: Seq<Seq<Color>>, s: GridSide, d: MoveDirection)
    requires
        grid_wf(g),
    ensures
        grid_wf(spec_move(g, s, d)),
{
}

/// The inverse and half-turn laws for the `Top` layer.
#[verifier::rlimit(100)]
#[verifier::spinoff_prover]
proof fn lemma_turn_laws_top(g: Seq<Seq<Color>>, dir: MoveDirection)
    requires
        grid_wf(g),
    ensures
        spec_move(spec_move(g, GridSide::Top, dir), GridSide::Top, flip_dir(dir)) == g,
        dir != MoveDirection::Double ==> spec_move(
            spec_move(g, GridSide::Top, dir),
            GridSide::Top,
            dir,
        ) == spec_move(g, GridSide::Top, MoveDirection::Double),
{
    assert(spec_move(spec_move(g, GridSide::Top, dir), GridSide::Top, flip_dir(dir)) =~~= g);
    if dir != MoveDirection::Double {
        assert(spec_move(spec_move(g, GridSide::Top, dir), GridSide::Top, dir) =~~= spec_move(
            g,
            GridSide::Top,
            MoveDirection::Double,
        ));
    }
}

/// The inverse and half-turn laws for the `Front` layer.
#[verifier::rlimit(100)]
#[verifier::spinoff_prover]
proof fn lemma_turn_laws_front(g: Seq<Seq<Color>>, dir: MoveDirection)
    requires
        grid_wf(g),
    ensures
        spec_move(spec_move(g, GridSide::Front, dir), GridSide::Front, flip_dir(dir)) == g,
        dir != MoveDirection::Double ==> spec_move(
            spec_move(g, GridSide::Front, dir),
            GridSide::Front,
            dir,
        ) == spec_move(g, GridSide::Front, MoveDirection::Double),
{
    assert(spec_move(spec_move(g, GridSide::Front, dir), GridSide::Front, flip_dir(dir)) =~~= g);
    if dir != MoveDirection::Double {
        assert(spec_move(spec_move(g, GridSide::Front, dir), GridSide::Front, dir) =~~= spec_move(
            g,
            GridSide::Front,
            MoveDirection::Double,
        ));
    }
}

/// The inverse and half-turn laws for the `Bottom` layer.
#[verifier::rlimit(100)]
#[verifier::spinoff_prover]
proof fn lemma_turn_laws_bottom(g: Seq<Seq<Color>>, dir: MoveDirection)
    requires
        grid_wf(g),
    ensures
        spec_move(spec_move(g, GridSide::Bottom, dir), GridSide::Bottom, flip_dir(dir)) == g,
        dir != MoveDirection::Double ==> spec_move(
            spec_move(g, GridSide::Bottom, dir),
            GridSide::Bottom,
            dir,
        ) == spec_move(g, GridSide::Bottom, MoveDirection::Double),
{
    assert(spec_move(spec_move(g, GridSide::Bottom, dir), GridSide::Bottom, flip_dir(dir)) =~~= g);
    if dir != MoveDirection::Double {
        assert(spec_move(spec_move(g, GridSide::Bottom, dir), GridSide::Bottom, dir) =~~= spec_move(
            g,
            GridSide::Bottom,
            MoveDirection::Double,
        ));
    }
}

/// The inverse and half-turn laws for the `Left` layer.
#[verifier::rlimit(100)]
#[verifier::spinoff_prover]
proof fn lemma_turn_laws_left(g: Seq<Seq<Color>>, dir: MoveDirection)
    requires
        grid_wf(g),
    ensures
        spec_move(spec_move(g, GridSide::Left, dir), GridSide::Left, flip_dir(dir)) == g,
        dir != MoveDirection::Double ==> spec_move(
            spec_move(g, GridSide::Left, dir),
            GridSide::Left,
            dir,
        ) == spec_move(g, GridSide::Left, MoveDirection::Double),
{
    assert(spec_move(spec_move(g, GridSide::Left, dir), GridSide::Left, flip_dir(dir)) =~~= g);
    if dir != MoveDirection::Double {
        assert(spec_move(spec_move(g, GridSide::Left, dir), GridSide::Left, dir) =~~= spec_move(
            g,
            GridSide::Left,
            MoveDirection::Double,
        ));
    }
}

/// The inverse and half-turn laws for the `Right` layer.
#[verifier::rlimit(100)]
#[verifier::spinoff_prover]
proof fn lemma_turn_laws_right(g: Seq<Seq<Color>>, dir: MoveDirection)
    requires
        grid_wf(g),
    ensures
        spec_move(spec_move(g, GridSide::Right, dir), GridSide::Right, flip_dir(dir)) == g,
        dir != MoveDirection::Double ==> spec_move(
            spec_move(g, GridSide::Right, dir),
            GridSide::Right,
            dir,
        ) == spec_move(g, GridSide::Right, MoveDirection::Double),
{
    assert(spec_move(spec_move(g, GridSide::Right, dir), GridSide::Right, flip_dir(dir)) =~~= g);
    if dir != MoveDirection::Double {
        assert(spec_move(spec_move(g, GridSide::Right, dir), GridSide::Right, dir) =~~= spec_move(
            g,
            GridSide::Right,
            MoveDirection::Double,
        ));
    }
}

/// The inverse and half-turn laws for the `Back` layer.
#[verifier::rlimit(100)]
#[verifier::spinoff_prover]
proof fn lemma_turn_laws_back(g: Seq<Seq<Color>>, dir: MoveDirection)
    requires
        grid_wf(g),
    ensures
        spec_move(spec_move(g, GridSide::Back, dir), GridSide::Back, flip_dir(dir)) == g,
        dir != MoveDirection::Double ==> spec_move(
            spec_move(g, GridSide::Back, dir),
            GridSide::Back,
            dir,
        ) == spec_move(g, GridSide::Back, MoveDirection::Double),
{
    assert(spec_move(spec_move(g, GridSide::Back, dir), GridSide::Back, flip_dir(dir)) =~~= g);
    if dir != MoveDirection::Double {
        assert(spec_move(spec_move(g, GridSide::Back, dir), GridSide::Back, dir) =~~= spec_move(
            g,
            GridSide::Back,
            MoveDirection::Double,
        ));
    }
}

/// The inverse and half-turn laws for the `MiddleX` layer.
#[verifier::rlimit(100)]
#[verifier::spinoff_prover]
proof fn lemma_turn_laws_middle_x(g: Seq<Seq<Color>>, dir: MoveDirection)
    requires
        grid_wf(g),
    ensures
        spec_move(spec_move(g, GridSide::MiddleX, dir), GridSide::MiddleX, flip_dir(dir)) == g,
        dir != MoveDirection::Double ==> spec_move(
            spec_move(g, GridSide::MiddleX, dir),
            GridSide::MiddleX,
            dir,
        ) == spec_move(g, GridSide::MiddleX, MoveDirection::Double),
{
    assert(spec_move(spec_move(g, GridSide::MiddleX, dir), GridSide::MiddleX, flip_dir(dir)) =~~= g);
    if dir != MoveDirection::Double {
        assert(spec_move(spec_move(g, GridSide::MiddleX, dir), GridSide::MiddleX, dir) =~~= spec_move(
            g,
            GridSide::MiddleX,
            MoveDirection::Double,
        ));
    }
}

/// The inverse and half-turn laws for the `MiddleY` layer.
#[verifier::rlimit(100)]
#[verifier::spinoff_prover]
proof fn lemma_turn_laws_middle_y(g: Seq<Seq<Color>>, dir: MoveDirection)
    requires
        grid_wf(g),
    ensures
        spec_move(spec_move(g, GridSide::MiddleY, dir), GridSide::MiddleY, flip_dir(dir)) == g,
        dir != MoveDirection::Double ==> spec_move(
            spec_move(g, GridSide::MiddleY, dir),
            GridSide::MiddleY,
            dir,
        ) == spec_move(g, GridSide::MiddleY, MoveDirection::Double),
{
    assert(spec_move(spec_move(g, GridSide::MiddleY, dir), GridSide::MiddleY, flip_dir(dir)) =~~= g);
    if dir != MoveDirection::Double {
        assert(spec_move(spec_move(g, GridSide::MiddleY, dir), GridSide::MiddleY, dir) =~~= spec_move(
            g,
            GridSide::MiddleY,
            MoveDirection::Double,
        ));
    }
}

/// The inverse and half-turn laws for the `MiddleZ` layer.
#[verifier::rlimit(100)]
#[verifier::spinoff_prover]
proof fn lemma_turn_laws_middle_z(g: Seq<Seq<Color>>, dir: MoveDirection)
    requires
        grid_wf(g),
    ensures
        spec_move(spec_move(g, GridSide::MiddleZ, dir), GridSide::MiddleZ, flip_dir(dir)) == g,
        dir != MoveDirection::Double ==> spec_move(
            spec_move(g, GridSide::MiddleZ, dir),
            GridSide::MiddleZ,
            dir,
        ) == spec_move(g, GridSide::MiddleZ, MoveDirection::Double),
{
    assert(spec_move(spec_move(g, GridSide::MiddleZ, dir), GridSide::MiddleZ, flip_dir(dir)) =~~= g);
    if dir != MoveDirection::Double {
        assert(spec_move(spec_move(g, GridSide::MiddleZ, dir), GridSide::MiddleZ, dir) =~~= spec_move(
            g,
            GridSide::MiddleZ,
            MoveDirection::Double,
        ));
    }
}

/// Turning a layer and then turning it the opposite way restores the grid
/// exactly, sticker for sticker; a half turn is its own inverse.
pub proof fn lemma_move_then_inverse(g: Seq<Seq<Color>>, side: GridSide, dir: MoveDirection)
    requires
        grid_wf(g),
    ensures
        spec_move(spec_move(g, side, dir), side, flip_dir(dir)) == g,
{
    match side {
        GridSide::Top => lemma_turn_laws_top(g, dir),
        GridSide::Front => lemma_turn_laws_front(g, dir),
        GridSide::Bottom => lemma_turn_laws_bottom(g, dir),
        GridSide::Left => lemma_turn_laws_left(g, dir),
        GridSide::Right => lemma_turn_laws_right(g, dir),
        GridSide::Back => lemma_turn_laws_back(g, dir),
        GridSide::MiddleX => lemma_turn_laws_middle_x(g, dir),
        GridSide::MiddleY => lemma_turn_laws_middle_y(g, dir),
        GridSide::MiddleZ => lemma_turn_laws_middle_z(g, dir),
    }
}

/// Two equal quarter turns of a layer amount to its half turn.
pub proof fn lemma_two_turns_is_double(g: Seq<Seq<Color>>, side: GridSide, dir: MoveDirection)
    requires
        grid_wf(g),
        dir != MoveDirection::Double,
    ensures
        spec_move(spec_move(g, side, dir), side, dir) == spec_move(
            g,
            side,
            MoveDirection::Double,
        ),
{
    match side {
        GridSide::Top => lemma_turn_laws_top(g, dir),
        GridSide::Front => lemma_turn_laws_front(g, dir),
        GridSide::Bottom => lemma_turn_laws_bottom(g, dir),
        GridSide::Left => lemma_turn_laws_left(g, dir),
        GridSide::Right => lemma_turn_laws_right(g, dir),
        GridSide::Back => lemma_turn_laws_back(g, dir),
        GridSide::MiddleX => lemma_turn_laws_middle_x(g, dir),
        GridSide::MiddleY => lemma_turn_laws_middle_y(g, dir),
        GridSide::MiddleZ => lemma_turn_laws_middle_z(g, dir),
    }
}

/// Two half turns of the same layer restore the grid.
pub proof fn lemma_double_twice(g: Seq<Seq<Color>>, side: GridSide)
    requires
        grid_wf(g),
    ensures
        spec_move(spec_move(g, side, MoveDirection::Double), side, MoveDirection::Double) == g,
{
    lemma_move_then_inverse(g, side, MoveDirection::Double);
}

/// Four equal quarter turns of the same layer restore the grid.
pub proof fn lemma_four_turns(g: Seq<Seq<Color>>, side: GridSide, dir: MoveDirection)
    requires
        grid_wf(g),
        dir != MoveDirection::Double,
    ensures
        spec_move(spec_move(spec_move(spec_move(g, side, dir), side, dir), side, dir), side, dir)
            == g,
{
    let g2 = spec_move(spec_move(g, side, dir), side, dir);
    lemma_two_turns_is_double(g, side, dir);
    lemma_move_wf(g, side, MoveDirection::Double);
    lemma_two_turns_is_double(g2, side, dir);
    lemma_double_twice(g, side);
}

/// A middle-layer turn leaves both faces bounding it along its axis
/// untouched: only the four neighbour strips cycle.
pub proof fn lemma_middle_keeps_caps(g: Seq<Seq<Color>>, side: GridSide, d: MoveDirection)
    requires
        grid_wf(g),
        is_middle_side(side),
    ensures
        forall|fs: GridSide|
            #![trigger side_idx(fs)]
            !is_middle_side(fs) && axis_of(fs) == axis_of(side) ==> spec_move(g, side, d)[side_idx(
                fs,
            )] == g[side_idx(fs)],
{
    assert forall|fs: GridSide|
        !is_middle_side(fs) && axis_of(fs) == axis_of(side) implies spec_move(g, side, d)[side_idx(
        fs,
    )] == g[side_idx(fs)] by {
        lemma_neighbors_distinct(side);
    }
}

/// The four neighbour strips of a side lie on four distinct faces, none of
/// which is the turning face itself.
pub proof fn lemma_neighbors_distinct(s: GridSide)
    ensures
        forall|k: int, j: int|
            0 <= k < 4 && 0 <= j < 4 && k != j ==> side_idx(#[trigger] neighbor_sides(s)[k].0)
                != side_idx(#[trigger] neighbor_sides(s)[j].0),
        forall|k: int| 0 <= k < 4 ==> !is_middle_side(#[trigger] neighbor_sides(s)[k].0),
        forall|k: int| 0 <= k < 4 ==> side_idx(#[trigger] neighbor_sides(s)[k].0) != side_idx(s),
{
}

} // verus!
