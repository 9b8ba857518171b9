//! Move notation and the layer taxonomy used by the slice animation.

use vstd::prelude::*;
use vstd::string::{StrSliceExecFns, StringExecFns};

use crate::cube_utils::{Axis, Color};
use crate::grid::{
    axis_of, grid_seq, neighbor_sides, order_of, read_strip, side_idx, Grid, GridSide,
    MoveDirection,
};

verus! {

/// The position of a layer along its turn axis.
#[allow(non_camel_case_types)]
#[derive(Debug, Clone, Copy, PartialEq, Eq, Structural)]
pub enum CubeSliceOrder {
    FIRST,
    MIDDLE,
    LAST,
}

/// The index of a layer position among the three slices of an axis.
pub open spec fn order_idx(o: CubeSliceOrder) -> int {
    match o {
        CubeSliceOrder::FIRST => 0,
        CubeSliceOrder::MIDDLE => 1,
        CubeSliceOrder::LAST => 2,
    }
}

impl CubeSliceOrder {
    /// The index of this layer position among the three slices of an axis.
    pub fn idx(&self) -> (r: usize)
        ensures
            r == order_idx(*self),
    {
        match self {
            Self::FIRST => 0,
            Self::MIDDLE => 1,
            Self::LAST => 2,
        }
    }
}

/// A turn of one layer: the side that names the layer, with its derived
/// axis and layer position, and the sense of the turn.
#[derive(Debug, Clone, Copy, PartialEq, Eq, Structural)]
pub struct CubeMove {
    pub axis: Axis,
    pub grid_side: GridSide,
    pub order: CubeSliceOrder,
    pub direction: MoveDirection,
}

impl CubeMove {
    /// The move turning the layer named by `grid_side` in `direction`; axis
    /// and layer position are derived from the side, keeping them consistent.
    pub fn from_side(grid_side: GridSide, direction: MoveDirection) -> (r: CubeMove)
        ensures
            r.grid_side == grid_side,
            r.direction == direction,
            r.axis == axis_of(grid_side),
            r.order == order_of(grid_side),
    {
        CubeMove { axis: grid_side.axis(), grid_side, order: grid_side.order(), direction }
    }

    /// Parse one move in letter notation: a side letter out of
    /// `R L U D F B M E S`, optionally followed by `'` (counter-clockwise)
    /// or `2` (half turn).  Anything else is an error that echoes the
    /// offending token.
    pub fn from_str(mv: &str) -> (r: Result<(GridSide, MoveDirection), String>)
        ensures
            match parse_move(mv@) {
                Some(p) => r == Result::<(GridSide, MoveDirection), String>::Ok(p),
                None => r matches Err(e) && e@ == parse_error_msg(mv@),
            },
    {
        let len = mv.unicode_len();
        if len == 0 || len > 2 {
            return Err(Self::parse_error(mv));
        }
        let side_char = mv.get_char(0);
        let grid_side = match side_char {
            'R' => GridSide::Right,
            'L' => GridSide::Left,
            'U' => GridSide::Top,
            'D' => GridSide::Bottom,
            'F' => GridSide::Front,
            'B' => GridSide::Back,
            'M' => GridSide::MiddleX,
            'E' => GridSide::MiddleY,
            'S' => GridSide::MiddleZ,
            _ => {
                return Err(Self::parse_error(mv));
            },
        };
        let direction = if len == 1 {
            MoveDirection::Clockwise
        } else {
            match mv.get_char(1) {
                '\'' => MoveDirection::CounterClockwise,
                '2' => MoveDirection::Double,
                _ => {
                    return Err(Self::parse_error(mv));
                },
            }
        };
        Ok((grid_side, direction))
    }

    /// The error returned for an unparsable token, echoing it back.
    fn parse_error(mv: &str) -> (r: String)
        ensures
            r@ == parse_error_msg(mv@),
    {
        let mut e = String::new();
        e.append("Incorrect move '");
        e.append(mv);
        e.append("'");
        proof {
            assert(e@ =~= parse_error_msg(mv@));
        }
        e
    }
}

/// The side named by the leading letter of a move token, if any.
pub open spec fn side_of_char(c: char) -> Option<GridSide> {
    if c == 'R' {
        Some(GridSide::Right)
    } else if c == 'L' {
        Some(GridSide::Left)
    } else if c == 'U' {
        Some(GridSide::Top)
    } else if c == 'D' {
        Some(GridSide::Bottom)
    } else if c == 'F' {
        Some(GridSide::Front)
    } else if c == 'B' {
        Some(GridSide::Back)
    } else if c == 'M' {
        Some(GridSide::MiddleX)
    } else if c == 'E' {
        Some(GridSide::MiddleY)
    } else if c == 'S' {
        Some(GridSide::MiddleZ)
    } else {
        None
    }
}

/// The direction named by a move token's suffix: none for clockwise, `'`
/// for counter-clockwise, `2` for a half turn.
pub open spec fn dir_of_token(s: Seq<char>) -> Option<MoveDirection> {
    if s.len() == 1 {
        Some(MoveDirection::Clockwise)
    } else if s.len() == 2 && s[1] == '\'' {
        Some(MoveDirection::CounterClockwise)
    } else if s.len() == 2 && s[1] == '2' {
        Some(MoveDirection::Double)
    } else {
        None
    }
}

/// The side and direction denoted by a move token, or `None` where the
/// token is not well formed.
pub open spec fn parse_move(s: Seq<char>) -> Option<(GridSide, MoveDirection)> {
    if s.len() == 0 {
        None
    } else {
        match side_of_char(s[0]) {
            Some(side) => match dir_of_token(s) {
                Some(d) => Some((side, d)),
                None => None,
            },
            None => None,
        }
    }
}

/// The message with which an unparsable move token is reported.
pub open spec fn parse_error_msg(s: Seq<char>) -> Seq<char> {
    "Incorrect move '"@ + s + "'"@
}

/// The views of a sequence of three-sticker strips.
pub open spec fn strip_views(cs: Seq<[Color; 3]>) -> Seq<Seq<Color>> {
    Seq::new(cs.len(), |i: int| cs[i]@)
}

/// A strip read backwards.
pub open spec fn rev3(s: Seq<Color>) -> Seq<Color> {
    seq![s[2], s[1], s[0]]
}

/// The colour-reflection rule of the slice builder.  Strips are read off
/// the grid in the canonical order of the move engine, which does not
/// always match the geometric winding of a slice's strip rectangles: every
/// first- and middle-layer slice reads its strips backwards, and the last
/// layer along the `Y` axis swaps opposite strips because its two cap
/// faces wind oppositely rather than mirrored.
pub open spec fn spec_flip_colors(
    cs: Seq<Seq<Color>>,
    axis: Axis,
    order: CubeSliceOrder,
) -> Seq<Seq<Color>> {
    if axis == Axis::Y && order == CubeSliceOrder::LAST {
        Seq::new(cs.len(), |i: int| cs[(i + 2) % 4])
    } else if order == CubeSliceOrder::LAST {
        cs
    } else {
        Seq::new(cs.len(), |i: int| rev3(cs[i]))
    }
}

/// The colours of the four neighbour strips of `side`, in the canonical
/// reading order of the move engine.
pub fn neighbor_colors(grid: &Grid, side: GridSide) -> (v: Vec<[Color; 3]>)
    ensures
        v@.len() == 4,
        forall|k: int|
            0 <= k < 4 ==> (#[trigger] v@[k])@ == read_strip(
                grid_seq(*grid)[side_idx(neighbor_sides(side)[k].0)],
                neighbor_sides(side)[k].1,
            ),
{
    let ns = grid.get_neighbors(side);
    let mut v: Vec<[Color; 3]> = Vec::new();
    v.push(ns[0].read_from(grid));
    v.push(ns[1].read_from(grid));
    v.push(ns[2].read_from(grid));
    v.push(ns[3].read_from(grid));
    v
}

/// Reorder the four neighbour strips of a slice so that the canonical
/// reading order matches the geometric winding of its strip rectangles.
pub fn flip_colors(colors: &mut Vec<[Color; 3]>, axis: &Axis, order: CubeSliceOrder)
    requires
        old(colors)@.len() == 4,
    ensures
        final(colors)@.len() == 4,
        strip_views(final(colors)@) == spec_flip_colors(strip_views(old(colors)@), *axis, order),
{
    let rotate_caps = matches!(axis, Axis::Y) && matches!(order, CubeSliceOrder::LAST);
    if rotate_caps {
        let t0 = colors[0];
        let t1 = colors[1];
        let t2 = colors[2];
        let t3 = colors[3];
        colors[0] = t2;
        colors[1] = t3;
        colors[2] = t0;
        colors[3] = t1;
        proof {
            assert(strip_views(colors@) =~~= spec_flip_colors(
                strip_views(old(colors)@),
                *axis,
                order,
            ));
        }
    } else if matches!(order, CubeSliceOrder::LAST) {
        proof {
            assert(strip_views(colors@) =~~= spec_flip_colors(
                strip_views(old(colors)@),
                *axis,
                order,
            ));
        }
    } else {
        let mut i: usize = 0;
        while i < 4
            invariant
                colors@.len() == 4,
                i <= 4,
                forall|k: int| 0 <= k < i ==> (#[trigger] colors@[k])@ == rev3(old(colors)@[k]@),
                forall|k: int| i <= k < 4 ==> colors@[k] == old(colors)@[k],
            decreases 4 - i,
        {
            let a = colors[i];
            colors[i] = [a[2], a[1], a[0]];
            i += 1;
        }
        proof {
            assert(strip_views(colors@) =~~= spec_flip_colors(
                strip_views(old(colors)@),
                *axis,
                order,
            ));
        }
    }
}

} // verus!
