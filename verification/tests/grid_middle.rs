//! Middle-layer turns: the engine's expected sticker layouts after mixing
//! the cube and turning each middle layer both ways.

use kostka::cube_utils::Color;
use kostka::cube_utils::Color::{Blue, Green, Orange, Red, White, Yellow};
use kostka::grid::GridSide::{Back, Bottom, Front, Left, MiddleX, MiddleY, MiddleZ, Right, Top};
use kostka::grid::MoveDirection::{Clockwise, CounterClockwise};
use kostka::grid::{Grid, GridFace};

fn new_custom_face(grid: [[Color; 3]; 3]) -> GridFace {
    GridFace { grid }
}

fn create_solved_grid() -> Grid {
    Grid {
        faces: [
            GridFace::new(White),  // TOP
            GridFace::new(Orange), // LEFT
            GridFace::new(Green),  // FRONT
            GridFace::new(Red),    // RIGHT
            GridFace::new(Blue),   // BACK
            GridFace::new(Yellow), // BOTTOM
        ],
    }
}

#[test]
fn test_middle_move_m() {
    let mut grid = create_solved_grid();

    grid.move_face(Top, Clockwise);
    grid.move_face(Bottom, Clockwise);
    grid.move_face(Front, Clockwise);
    grid.move_face(Right, Clockwise);
    grid.move_face(Top, Clockwise);

    grid.move_face(MiddleX, Clockwise);

    let front = &grid.faces[Front.idx()];
    assert_eq!(
        front,
        &new_custom_face([
            [White, White, White],
            [Orange, White, Yellow],
            [Orange, Red, Yellow],
        ])
    );

    let top = &grid.faces[Top.idx()];
    assert_eq!(
        top,
        &new_custom_face([
            [Blue, Red, White],
            [Orange, Blue, White],
            [Red, Green, Red],
        ])
    );

    let back = &grid.faces[Back.idx()];
    assert_eq!(
        back,
        &new_custom_face([
            [Green, Yellow, Yellow],
            [White, Yellow, Blue],
            [White, Red, Red],
        ])
    );

    let bottom = &grid.faces[Bottom.idx()];
    assert_eq!(
        bottom,
        &new_custom_face([
            [Green, White, Red],
            [Yellow, Green, Blue],
            [Yellow, Green, Orange],
        ])
    );
}

#[test]
fn test_middle_move_m_counter_clockwise() {
    let mut grid = create_solved_grid();

    grid.move_face(Top, Clockwise);
    grid.move_face(Bottom, Clockwise);
    grid.move_face(Front, Clockwise);
    grid.move_face(Right, Clockwise);
    grid.move_face(Top, Clockwise);

    grid.move_face(MiddleX, CounterClockwise);

    let front = &grid.faces[Front.idx()];
    assert_eq!(
        front,
        &new_custom_face([
            [White, Red, White],
            [Orange, Yellow, Yellow],
            [Orange, Yellow, Yellow],
        ])
    );

    let top = &grid.faces[Top.idx()];
    assert_eq!(
        top,
        &new_custom_face([
            [Blue, White, White],
            [Orange, Green, White],
            [Red, Green, Red],
        ])
    );

    let back = &grid.faces[Back.idx()];
    assert_eq!(
        back,
        &new_custom_face([
            [Green, Red, Yellow],
            [White, White, Blue],
            [White, White, Red],
        ])
    );

    let bottom = &grid.faces[Bottom.idx()];
    assert_eq!(
        bottom,
        &new_custom_face([
            [Green, Red, Red],
            [Yellow, Blue, Blue],
            [Yellow, Green, Orange],
        ])
    );
}

#[test]
fn test_middle_move_s() {
    let mut grid = create_solved_grid();

    grid.move_face(Top, Clockwise);
    grid.move_face(Bottom, Clockwise);
    grid.move_face(Right, Clockwise);
    grid.move_face(Back, Clockwise);
    grid.move_face(Top, Clockwise);

    grid.move_face(MiddleZ, Clockwise);

    let top = &grid.faces[Top.idx()];
    assert_eq!(
        top,
        &new_custom_face([
            [White, White, Blue],
            [Blue, Orange, Red],
            [Orange, Green, Blue],
        ])
    );

    let right = &grid.faces[Right.idx()];
    assert_eq!(
        right,
        &new_custom_face([
            [White, White, White],
            [Green, White, Yellow],
            [Green, Blue, Yellow],
        ])
    );

    let bottom = &grid.faces[Bottom.idx()];
    assert_eq!(
        bottom,
        &new_custom_face([
            [Yellow, Yellow, Red],
            [Red, Red, White],
            [Green, Orange, Blue],
        ])
    );

    let left = &grid.faces[Left.idx()];
    assert_eq!(
        left,
        &new_custom_face([
            [Red, Yellow, Yellow],
            [White, Yellow, Orange],
            [White, Blue, Blue],
        ])
    );
}

#[test]
fn test_middle_move_s_counter_clockwise() {
    let mut grid = create_solved_grid();

    grid.move_face(Top, Clockwise);
    grid.move_face(Bottom, Clockwise);
    grid.move_face(Right, Clockwise);
    grid.move_face(Back, Clockwise);
    grid.move_face(Top, Clockwise);

    grid.move_face(MiddleZ, CounterClockwise);

    let top = &grid.faces[Top.idx()];
    assert_eq!(
        top,
        &new_custom_face([
            [White, White, Blue],
            [White, Red, Red],
            [Orange, Green, Blue],
        ])
    );

    let right = &grid.faces[Right.idx()];
    assert_eq!(
        right,
        &new_custom_face([
            [White, Blue, White],
            [Green, Yellow, Yellow],
            [Green, Yellow, Yellow],
        ])
    );

    let bottom = &grid.faces[Bottom.idx()];
    assert_eq!(
        bottom,
        &new_custom_face([
            [Yellow, Yellow, Red],
            [Red, Orange, Blue],
            [Green, Orange, Blue],
        ])
    );

    let left = &grid.faces[Left.idx()];
    assert_eq!(
        left,
        &new_custom_face([
            [Red, Blue, Yellow],
            [White, White, Orange],
            [White, White, Blue],
        ])
    );
}

#[test]
fn test_middle_move_e() {
    let mut grid = create_solved_grid();

    grid.move_face(Front, Clockwise);
    grid.move_face(Back, Clockwise);
    grid.move_face(Right, Clockwise);
    grid.move_face(Top, Clockwise);
    grid.move_face(Front, Clockwise);

    grid.move_face(MiddleY, Clockwise);

    let front = &grid.faces[Front.idx()];
    assert_eq!(
        front,
        &new_custom_face([
            [Green, Green, White],
            [White, Orange, Red],
            [Orange, Yellow, White],
        ])
    );

    let right = &grid.faces[Right.idx()];
    assert_eq!(
        right,
        &new_custom_face([
            [Green, Blue, Blue],
            [Green, Green, White],
            [Green, Yellow, Yellow],
        ])
    );

    let back = &grid.faces[Back.idx()];
    assert_eq!(
        back,
        &new_custom_face([
            [White, Orange, Yellow],
            [Green, Red, Red],
            [Red, Blue, Blue],
        ])
    );

    let left = &grid.faces[Left.idx()];
    assert_eq!(
        left,
        &new_custom_face([
            [Green, Green, Red],
            [White, Blue, Blue],
            [White, Orange, Blue],
        ])
    );
}

#[test]
fn test_middle_move_e_counter_clockwise() {
    let mut grid = create_solved_grid();

    grid.move_face(Front, Clockwise);
    grid.move_face(Back, Clockwise);
    grid.move_face(Right, Clockwise);
    grid.move_face(Top, Clockwise);
    grid.move_face(Front, Clockwise);

    grid.move_face(MiddleY, CounterClockwise);

    let front = &grid.faces[Front.idx()];
    assert_eq!(
        front,
        &new_custom_face([
            [Green, Green, White],
            [Green, Red, Red],
            [Orange, Yellow, White],
        ])
    );

    let right = &grid.faces[Right.idx()];
    assert_eq!(
        right,
        &new_custom_face([
            [Green, Blue, Blue],
            [White, Blue, Blue],
            [Green, Yellow, Yellow],
        ])
    );

    let back = &grid.faces[Back.idx()];
    assert_eq!(
        back,
        &new_custom_face([
            [White, Orange, Yellow],
            [White, Orange, Red],
            [Red, Blue, Blue],
        ])
    );

    let left = &grid.faces[Left.idx()];
    assert_eq!(
        left,
        &new_custom_face([
            [Green, Green, Red],
            [Green, Green, White],
            [White, Orange, Blue],
        ])
    );
}
