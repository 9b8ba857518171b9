//! Random scrambling: a run of random face turns, no two consecutive turns
//! about the same axis, applied to the sticker state.

use vstd::prelude::*;

use crate::cube_utils::{Axis, Color};
use crate::grid::{axis_of, grid_seq, is_middle_side, spec_move, Grid, GridSide, MoveDirection};

verus! {

/// A scramble step turns a face, never a middle layer.
pub open spec fn scramble_step_wf(m: (GridSide, MoveDirection)) -> bool {
    !is_middle_side(m.0)
}

/// A well-formed scramble of `len` steps: face turns only, consecutive
/// turns never about the same axis.
pub open spec fn scramble_wf(ms: Seq<(GridSide, MoveDirection)>, len: int) -> bool {
    &&& ms.len() == len
    &&& forall|i: int| 0 <= i < ms.len() ==> scramble_step_wf(#[trigger] ms[i])
    &&& forall|i: int|
        0 < i < ms.len() ==> axis_of(ms[i - 1].0) != axis_of((#[trigger] ms[i]).0)
}

/// The grid after applying the turns of `ms` in order.
pub open spec fn apply_moves(
    g: Seq<Seq<Color>>,
    ms: Seq<(GridSide, MoveDirection)>,
) -> Seq<Seq<Color>>
    decreases ms.len(),
{
    if ms.len() == 0 {
        g
    } else {
        apply_moves(spec_move(g, ms[0].0, ms[0].1), ms.skip(1))
    }
}

/// Relies on rand::random_range: a uniform sample from the range `0..n`,
/// which is nonempty, lies below `n`.
#[verifier::external_body]
fn random_below(n: usize) -> (r: usize)
    requires
        0 < n,
    ensures
        r < n,
{
    rand::random_range(0..n)
}

/// The two axes other than `a`.
fn other_axes(a: &Axis) -> (r: (Axis, Axis))
    ensures
        r.0 != *a,
        r.1 != *a,
        r.0 != r.1,
{
    match a {
        Axis::X => (Axis::Y, Axis::Z),
        Axis::Y => (Axis::X, Axis::Z),
        Axis::Z => (Axis::X, Axis::Y),
    }
}

/// The two face sides that turn about `a`.
fn faces_of_axis(a: &Axis) -> (r: (GridSide, GridSide))
    ensures
        !is_middle_side(r.0),
        !is_middle_side(r.1),
        axis_of(r.0) == *a,
        axis_of(r.1) == *a,
{
    match a {
        Axis::X => (GridSide::Left, GridSide::Right),
        Axis::Y => (GridSide::Top, GridSide::Bottom),
        Axis::Z => (GridSide::Front, GridSide::Back),
    }
}

/// A run of `length` random face turns, each drawn uniformly from the
/// twelve turns whose axis differs from the previous turn's (all eighteen
/// for the first).
fn generate_scramble(length: usize) -> (v: Vec<(GridSide, MoveDirection)>)
    ensures
        scramble_wf(v@, length as int),
{
    let mut v: Vec<(GridSide, MoveDirection)> = Vec::new();
    let mut last_axis: Option<Axis> = None;
    let mut i: usize = 0;
    while i < length
        invariant
            i <= length,
            v@.len() == i,
            forall|k: int| 0 <= k < v@.len() ==> scramble_step_wf(#[trigger] v@[k]),
            forall|k: int|
                0 < k < v@.len() ==> axis_of(v@[k - 1].0) != axis_of((#[trigger] v@[k]).0),
            match last_axis {
                Some(a) => v@.len() > 0 && axis_of(v@[v@.len() - 1].0) == a,
                None => v@.len() == 0,
            },
        decreases length - i,
    {
        let axis = match &last_axis {
            None => {
                let k = random_below(3);
                if k == 0 {
                    Axis::X
                } else if k == 1 {
                    Axis::Y
                } else {
                    Axis::Z
                }
            },
            Some(a) => {
                let pair = other_axes(a);
                if random_below(2) == 0 {
                    pair.0
                } else {
                    pair.1
                }
            },
        };
        let sides = faces_of_axis(&axis);
        let side = if random_below(2) == 0 {
            sides.0
        } else {
            sides.1
        };
        let k = random_below(3);
        let dir = if k == 0 {
            MoveDirection::Clockwise
        } else if k == 1 {
            MoveDirection::CounterClockwise
        } else {
            MoveDirection::Double
        };
        v.push((side, dir));
        last_axis = Some(axis);
        i += 1;
    }
    v
}

/// Apply the turns of `moves` to the grid, in order.
fn apply_scramble(grid: &mut Grid, moves: &Vec<(GridSide, MoveDirection)>)
    ensures
        grid_seq(*final(grid)) == apply_moves(grid_seq(*old(grid)), moves@),
{
    let mut i: usize = 0;
    proof {
        assert(moves@.skip(0) =~= moves@);
    }
    while i < moves.len()
        invariant
            i <= moves@.len(),
            apply_moves(grid_seq(*old(grid)), moves@) == apply_moves(
                grid_seq(*grid),
                moves@.skip(i as int),
            ),
        decreases moves@.len() - i,
    {
        let m = moves[i];
        grid.move_face(m.0, m.1);
        proof {
            assert(moves@.skip(i as int)[0] == moves@[i as int]);
            assert(moves@.skip(i as int).skip(1) =~= moves@.skip(i as int + 1));
        }
        i += 1;
    }
    proof {
        assert(moves@.skip(moves@.len() as int) =~= Seq::<(GridSide, MoveDirection)>::empty());
    }
}

/// Scramble the puzzle: twenty random face turns, no two consecutive turns
/// about the same axis, applied to the sticker state.
pub fn scramble(grid: &mut Grid)
    ensures
        exists|ms: Seq<(GridSide, MoveDirection)>|
            #[trigger] scramble_wf(ms, 20) && grid_seq(*final(grid)) == apply_moves(
                grid_seq(*old(grid)),
                ms,
            ),
{
    let moves = generate_scramble(20);
    apply_scramble(grid, &moves);
    proof {
        assert(scramble_wf(moves@, 20) && grid_seq(*grid) == apply_moves(
            grid_seq(*old(grid)),
            moves@,
        ));
    }
}

} // verus!
