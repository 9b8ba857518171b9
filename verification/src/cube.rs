//! The orientation resolver.  The solid can be rotated freely for viewing,
//! so a camera-relative command ("turn the face on my right") must be
//! translated to a canonical puzzle side.  For each reference direction the
//! resolver picks the geometric face whose centre points farthest along it;
//! the caller supplies the six face centres in fixed-point coordinates,
//! measured after its tie-breaking perturbation, so that the choice is
//! unambiguous even at axis-aligned orientations.

use vstd::prelude::*;

use crate::grid::{
    axis_of, flip_dir, is_middle_side, middle_adjacent, middle_of_axis, order_of, side_idx,
    GridSide,
};
use crate::slice::CubeMove;

verus! {

/// The centre of one geometric face, in fixed-point device coordinates
/// relative to the solid's own centre.
#[derive(Debug, Clone, Copy, PartialEq, Eq, Structural)]
pub struct Centroid {
    pub x: i64,
    pub y: i64,
    pub z: i64,
}

/// Centroid coordinates stay within a fixed range, so that projections can
/// be negated without overflow.
pub open spec fn centroid_in_range(c: Centroid) -> bool {
    &&& -1_000_000_000 <= c.x <= 1_000_000_000
    &&& -1_000_000_000 <= c.y <= 1_000_000_000
    &&& -1_000_000_000 <= c.z <= 1_000_000_000
}

/// The signed length of `c` along the reference direction of face side `s`.
/// The camera looks down the negative `z` axis: `Right` is `+x`, `Top` is
/// `+y`, `Front` is `-z`.
pub open spec fn projection(c: Centroid, s: GridSide) -> int {
    match s {
        GridSide::Right => c.x as int,
        GridSide::Left => -(c.x as int),
        GridSide::Top => c.y as int,
        GridSide::Bottom => -(c.y as int),
        GridSide::Front => -(c.z as int),
        GridSide::Back => c.z as int,
        _ => 0,
    }
}

/// Geometric face `j` is the one aligned with reference side `s`: its
/// centre projects at least as far as every face's, and strictly farther
/// than every later face's (a tie resolves to the last maximiser).
pub open spec fn aligned(cs: Seq<Centroid>, s: GridSide, j: int) -> bool {
    &&& 0 <= j < 6
    &&& forall|k: int| 0 <= k < 6 ==> projection(#[trigger] cs[k], s) <= projection(cs[j], s)
    &&& forall|k: int| j < k < 6 ==> projection(#[trigger] cs[k], s) < projection(cs[j], s)
}

/// For each canonical side, by its storage index, the geometric face side
/// currently most aligned with that side's reference direction.
#[derive(Debug, Clone, Copy, PartialEq, Eq)]
pub struct SideMap {
    pub sides: [GridSide; 6],
}

/// A side map is well formed when every entry is a face side.
pub open spec fn side_map_wf(m: SideMap) -> bool {
    forall|i: int| 0 <= i < 6 ==> !is_middle_side(#[trigger] m.sides@[i])
}

/// The move that `mv` denotes once its camera-relative side is replaced by
/// the mapped canonical side.  For a middle layer the mapped layer is the
/// one on the translated axis; when the mapping reverses the layer's
/// orientation relative to the requested one, the turn direction flips.
pub open spec fn spec_translate(m: SideMap, mv: CubeMove) -> CubeMove {
    let translated = m.sides@[side_idx(middle_adjacent(mv.grid_side))];
    if is_middle_side(mv.grid_side) {
        let tm = middle_of_axis(axis_of(translated));
        let dir = if side_idx(translated) != side_idx(middle_adjacent(tm)) {
            flip_dir(mv.direction)
        } else {
            mv.direction
        };
        CubeMove { axis: axis_of(tm), grid_side: tm, order: order_of(tm), direction: dir }
    } else {
        CubeMove {
            axis: axis_of(translated),
            grid_side: translated,
            order: order_of(translated),
            direction: mv.direction,
        }
    }
}

impl SideMap {
    /// The signed projection of `c` along the reference direction of `side`.
    fn proj(c: &Centroid, side: GridSide) -> (r: i64)
        requires
            centroid_in_range(*c),
            !is_middle_side(side),
        ensures
            r as int == projection(*c, side),
    {
        match side {
            GridSide::Right => c.x,
            GridSide::Left => -c.x,
            GridSide::Top => c.y,
            GridSide::Bottom => -c.y,
            GridSide::Front => -c.z,
            GridSide::Back => c.z,
            _ => unreached(),
        }
    }

    /// The index of the face whose centre points farthest along the
    /// reference direction of `side`; a tie resolves to the last maximiser.
    fn best_face(centers: &[Centroid; 6], side: GridSide) -> (j: usize)
        requires
            forall|i: int| 0 <= i < 6 ==> centroid_in_range(#[trigger] centers@[i]),
            !is_middle_side(side),
        ensures
            aligned(centers@, side, j as int),
    {
        let mut best: usize = 0;
        let mut k: usize = 1;
        while k < 6
            invariant
                1 <= k <= 6,
                best < k,
                forall|i: int| 0 <= i < 6 ==> centroid_in_range(#[trigger] centers@[i]),
                !is_middle_side(side),
                forall|t: int|
                    0 <= t < k ==> projection(#[trigger] centers@[t], side) <= projection(
                        centers@[best as int],
                        side,
                    ),
                forall|t: int|
                    best < t < k ==> projection(#[trigger] centers@[t], side) < projection(
                        centers@[best as int],
                        side,
                    ),
            decreases 6 - k,
        {
            if Self::proj(&centers[k], side) >= Self::proj(&centers[best], side) {
                best = k;
            }
            k += 1;
        }
        best
    }

    /// Resolve the side map for the six face centres `centers`, indexed by
    /// face storage index: each canonical side maps to the face most
    /// aligned with its reference direction.
    pub fn update_side_map(centers: &[Centroid; 6]) -> (m: SideMap)
        requires
            forall|i: int| 0 <= i < 6 ==> centroid_in_range(#[trigger] centers@[i]),
        ensures
            side_map_wf(m),
            forall|s: GridSide|
                #![trigger side_idx(s)]
                !is_middle_side(s) ==> aligned(centers@, s, side_idx(m.sides@[side_idx(s)])),
    {
        let m = SideMap {
            sides: [
                GridSide::from_idx(Self::best_face(centers, GridSide::Top)),
                GridSide::from_idx(Self::best_face(centers, GridSide::Left)),
                GridSide::from_idx(Self::best_face(centers, GridSide::Front)),
                GridSide::from_idx(Self::best_face(centers, GridSide::Right)),
                GridSide::from_idx(Self::best_face(centers, GridSide::Back)),
                GridSide::from_idx(Self::best_face(centers, GridSide::Bottom)),
            ],
        };
        m
    }

    /// The geometric face side currently aligned with canonical `side`.
    pub fn translate_side(&self, side: GridSide) -> (r: GridSide)
        requires
            !is_middle_side(side),
            side_map_wf(*self),
        ensures
            r == self.sides@[side_idx(side)],
            !is_middle_side(r),
    {
        self.sides[side.idx()]
    }

    /// Translate a camera-relative move into the equivalent move on
    /// canonical sides, flipping the direction where the mapped middle
    /// layer's orientation is inverted relative to the requested one.
    pub fn translate_move(&self, cube_move: CubeMove) -> (r: CubeMove)
        requires
            side_map_wf(*self),
        ensures
            r == spec_translate(*self, cube_move),
    {
        let side = cube_move.grid_side;
        let mut direction = cube_move.direction;
        let translated = self.sides[side.middle_layer_adjacent().idx()];
        if side.is_middle() {
            let translated_middle = GridSide::middle_layer_from_axis(&translated.axis());
            if translated.idx() != translated_middle.middle_layer_adjacent().idx() {
                direction = direction.flip();
            }
            CubeMove::from_side(translated_middle, direction)
        } else {
            CubeMove::from_side(translated, direction)
        }
    }
}

} // verus!
