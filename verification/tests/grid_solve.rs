//! A fixed 27-move sequence solves a specific mixed cube: the regression
//! scenario for the whole permutation engine.

use kostka::cube_utils::Color;
use kostka::cube_utils::Color::{Blue, Green, Orange, Red, White, Yellow};
use kostka::grid::GridSide::{Back, Bottom, Front, Left, Right, Top};
use kostka::grid::MoveDirection::{Clockwise, CounterClockwise};
use kostka::grid::{Grid, GridFace, GridSide};

fn new_custom_face(grid: [[Color; 3]; 3]) -> GridFace {
    GridFace { grid }
}

fn assert_whole_color(grid: &Grid, side: GridSide, color: Color) -> bool {
    let face = &grid.faces[side.idx()];
    for row in face.grid {
        for c in row {
            if c != color {
                return false;
            }
        }
    }
    true
}

fn assert_solved_cube(grid: &Grid) -> bool {
    assert_whole_color(grid, Top, White)
        && assert_whole_color(grid, Left, Orange)
        && assert_whole_color(grid, Front, Green)
        && assert_whole_color(grid, Right, Red)
        && assert_whole_color(grid, Back, Blue)
        && assert_whole_color(grid, Bottom, Yellow)
}

fn create_mixed_grid() -> Grid {
    Grid {
        faces: [
            // TOP
            new_custom_face([
                [Red, White, Green],
                [Green, White, Blue],
                [White, Blue, Blue],
            ]),
            // LEFT
            new_custom_face([
                [Blue, Orange, Red],
                [Yellow, Orange, Yellow],
                [Green, Green, Orange],
            ]),
            // FRONT
            new_custom_face([
                [Blue, Red, Orange],
                [Green, Green, Orange],
                [Yellow, Yellow, Green],
            ]),
            // RIGHT
            new_custom_face([
                [White, Orange, Orange],
                [Yellow, Red, Orange],
                [Red, Red, Green],
            ]),
            // BACK
            new_custom_face([
                [Yellow, Green, Yellow],
                [White, Blue, Red],
                [White, White, White],
            ]),
            // BOTTOM
            new_custom_face([
                [Blue, Blue, Yellow],
                [Red, Yellow, White],
                [Orange, Blue, Red],
            ]),
        ],
    }
}

#[test]
fn test_solving_mixed_cube() {
    let mut grid = create_mixed_grid();

    let moves = vec![
        (Bottom, Clockwise),
        (Left, CounterClockwise),
        (Front, Clockwise),
        (Right, CounterClockwise),
        (Bottom, Clockwise),
        (Right, Clockwise),
        (Right, Clockwise),
        (Left, Clockwise),
        (Front, Clockwise),
        (Left, CounterClockwise),
        (Right, Clockwise),
        (Right, Clockwise),
        (Front, CounterClockwise),
        (Top, Clockwise),
        (Top, Clockwise),
        (Back, CounterClockwise),
        (Right, Clockwise),
        (Right, Clockwise),
        (Back, Clockwise),
        (Top, Clockwise),
        (Top, Clockwise),
        (Front, CounterClockwise),
        (Left, Clockwise),
        (Left, Clockwise),
        (Top, Clockwise),
        (Top, Clockwise),
        (Back, Clockwise),
    ];

    for (side, direction) in moves {
        grid.move_face(side, direction);
    }

    assert!(assert_solved_cube(&grid))
}

#[test]
fn test_solving_mixed_cuve() {
    let mut grid = create_mixed_grid();

    let moves = vec![
        (Bottom, Clockwise),
        (Left, CounterClockwise),
        (Front, Clockwise),
        (Right, CounterClockwise),
        (Bottom, Clockwise),
        (Right, Clockwise),
        (Right, Clockwise),
        (Left, Clockwise),
        (Front, Clockwise),
        (Left, CounterClockwise),
        (Right, Clockwise),
        (Right, Clockwise),
        (Front, CounterClockwise),
        (Top, Clockwise),
        (Top, Clockwise),
        (Back, CounterClockwise),
        (Right, Clockwise),
        (Right, Clockwise),
        (Back, Clockwise),
        (Top, Clockwise),
        (Top, Clockwise),
        (Front, CounterClockwise),
        (Left, Clockwise),
        (Left, Clockwise),
        (Top, Clockwise),
        (Top, Clockwise),
        (Back, Clockwise),
    ];

    for (side, direction) in moves {
        grid.move_face(side, direction);
    }

    assert!(assert_solved_cube(&grid))
}
