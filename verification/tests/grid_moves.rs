//! Face-turn behaviour of the sticker engine: each turn moves the expected
//! strips, and turning back restores the solved state.

use kostka::cube_utils::Color;
use kostka::grid::{Grid, GridFace, GridSide, MoveDirection};

fn assert_whole_color(grid: &Grid, side: GridSide, color: Color) -> bool {
    let face = &grid.faces[side.idx()];
    for row in face.grid {
        for c in row {
            if c != color {
                return false;
            }
        }
    }
    true
}

fn assert_right_color(grid: &Grid, side: GridSide, color: Color) -> bool {
    let face_grid = &grid.faces[side.idx()].grid;
    face_grid[0][2] == color && face_grid[1][2] == color && face_grid[2][2] == color
}

fn assert_left_color(grid: &Grid, side: GridSide, color: Color) -> bool {
    let face_grid = &grid.faces[side.idx()].grid;
    face_grid[0][0] == color && face_grid[1][0] == color && face_grid[2][0] == color
}

fn assert_top_color(grid: &Grid, side: GridSide, color: Color) -> bool {
    let face_grid = &grid.faces[side.idx()].grid;
    face_grid[0][0] == color && face_grid[0][1] == color && face_grid[0][2] == color
}

fn assert_bottom_color(grid: &Grid, side: GridSide, color: Color) -> bool {
    let face_grid = &grid.faces[side.idx()].grid;
    face_grid[2][0] == color && face_grid[2][1] == color && face_grid[2][2] == color
}

fn assert_solved_cube(grid: &Grid) -> bool {
    assert_whole_color(grid, GridSide::Top, Color::White)
        && assert_whole_color(grid, GridSide::Left, Color::Orange)
        && assert_whole_color(grid, GridSide::Front, Color::Green)
        && assert_whole_color(grid, GridSide::Right, Color::Red)
        && assert_whole_color(grid, GridSide::Back, Color::Blue)
        && assert_whole_color(grid, GridSide::Bottom, Color::Yellow)
}

fn create_solved_grid() -> Grid {
    Grid {
        faces: [
            GridFace::new(Color::White),  // TOP
            GridFace::new(Color::Orange), // LEFT
            GridFace::new(Color::Green),  // FRONT
            GridFace::new(Color::Red),    // RIGHT
            GridFace::new(Color::Blue),   // BACK
            GridFace::new(Color::Yellow), // BOTTOM
        ],
    }
}

#[test]
fn test_move_right() {
    let mut grid = create_solved_grid();
    grid.move_face(GridSide::Right, MoveDirection::Clockwise);

    assert!(assert_whole_color(&grid, GridSide::Right, Color::Red));
    assert!(assert_right_color(&grid, GridSide::Front, Color::Yellow));
    assert!(assert_right_color(&grid, GridSide::Top, Color::Green));
    assert!(assert_left_color(&grid, GridSide::Back, Color::White));
    assert!(assert_right_color(&grid, GridSide::Bottom, Color::Blue));

    grid.move_face(GridSide::Right, MoveDirection::CounterClockwise);

    assert!(assert_solved_cube(&grid));
}

#[test]
fn test_move_left() {
    let mut grid = create_solved_grid();
    grid.move_face(GridSide::Left, MoveDirection::Clockwise);

    assert!(assert_whole_color(&grid, GridSide::Left, Color::Orange));
    assert!(assert_left_color(&grid, GridSide::Front, Color::White));
    assert!(assert_left_color(&grid, GridSide::Top, Color::Blue));
    assert!(assert_right_color(&grid, GridSide::Back, Color::Yellow));
    assert!(assert_left_color(&grid, GridSide::Bottom, Color::Green));

    grid.move_face(GridSide::Left, MoveDirection::CounterClockwise);

    assert!(assert_solved_cube(&grid));
}

#[test]
fn test_move_front() {
    let mut grid = create_solved_grid();
    grid.move_face(GridSide::Front, MoveDirection::Clockwise);

    assert!(assert_whole_color(&grid, GridSide::Front, Color::Green));
    assert!(assert_bottom_color(&grid, GridSide::Top, Color::Orange));
    assert!(assert_left_color(&grid, GridSide::Right, Color::White));
    assert!(assert_top_color(&grid, GridSide::Bottom, Color::Red));
    assert!(assert_right_color(&grid, GridSide::Left, Color::Yellow));

    grid.move_face(GridSide::Front, MoveDirection::CounterClockwise);

    assert!(assert_solved_cube(&grid));
}

#[test]
fn test_move_top() {
    let mut grid = create_solved_grid();
    grid.move_face(GridSide::Top, MoveDirection::Clockwise);

    assert!(assert_whole_color(&grid, GridSide::Top, Color::White));
    assert!(assert_top_color(&grid, GridSide::Front, Color::Red));
    assert!(assert_top_color(&grid, GridSide::Left, Color::Green));
    assert!(assert_top_color(&grid, GridSide::Right, Color::Blue));
    assert!(assert_top_color(&grid, GridSide::Back, Color::Orange));

    grid.move_face(GridSide::Top, MoveDirection::CounterClockwise);

    assert!(assert_solved_cube(&grid));
}

#[test]
fn test_move_bottom() {
    let mut grid = create_solved_grid();
    grid.move_face(GridSide::Bottom, MoveDirection::Clockwise);

    assert!(assert_whole_color(&grid, GridSide::Bottom, Color::Yellow));
    assert!(assert_bottom_color(&grid, GridSide::Front, Color::Orange));
    assert!(assert_bottom_color(&grid, GridSide::Left, Color::Blue));
    assert!(assert_bottom_color(&grid, GridSide::Right, Color::Green));
    assert!(assert_bottom_color(&grid, GridSide::Back, Color::Red));

    grid.move_face(GridSide::Bottom, MoveDirection::CounterClockwise);

    assert!(assert_solved_cube(&grid));
}

#[test]
fn test_move_back() {
    let mut grid = create_solved_grid();
    grid.move_face(GridSide::Back, MoveDirection::Clockwise);

    assert!(assert_whole_color(&grid, GridSide::Back, Color::Blue));
    assert!(assert_top_color(&grid, GridSide::Top, Color::Red));
    assert!(assert_right_color(&grid, GridSide::Right, Color::Yellow));
    assert!(assert_left_color(&grid, GridSide::Left, Color::White));
    assert!(assert_bottom_color(&grid, GridSide::Bottom, Color::Orange));

    grid.move_face(GridSide::Back, MoveDirection::CounterClockwise);

    assert!(assert_solved_cube(&grid));
}

#[test]
fn grid_test_move_right() {
    let mut grid = create_solved_grid();
    grid.move_face(GridSide::Right, MoveDirection::Clockwise);

    assert!(assert_whole_color(&grid, GridSide::Right, Color::Red));
    assert!(assert_right_color(&grid, GridSide::Front, Color::Yellow));
    assert!(assert_right_color(&grid, GridSide::Top, Color::Green));
    assert!(assert_left_color(&grid, GridSide::Back, Color::White));
    assert!(assert_right_color(&grid, GridSide::Bottom, Color::Blue));

    grid.move_face(GridSide::Right, MoveDirection::CounterClockwise);

    assert!(assert_solved_cube(&grid));
}

#[test]
fn grid_test_move_left() {
    let mut grid = create_solved_grid();
    grid.move_face(GridSide::Left, MoveDirection::Clockwise);

    assert!(assert_whole_color(&grid, GridSide::Left, Color::Orange));
    assert!(assert_left_color(&grid, GridSide::Front, Color::White));
    assert!(assert_left_color(&grid, GridSide::Top, Color::Blue));
    assert!(assert_right_color(&grid, GridSide::Back, Color::Yellow));
    assert!(assert_left_color(&grid, GridSide::Bottom, Color::Green));

    grid.move_face(GridSide::Left, MoveDirection::CounterClockwise);

    assert!(assert_solved_cube(&grid));
}

#[test]
fn grid_test_move_front() {
    let mut grid = create_solved_grid();
    grid.move_face(GridSide::Front, MoveDirection::Clockwise);

    assert!(assert_whole_color(&grid, GridSide::Front, Color::Green));
    assert!(assert_bottom_color(&grid, GridSide::Top, Color::Orange));
    assert!(assert_left_color(&grid, GridSide::Right, Color::White));
    assert!(assert_top_color(&grid, GridSide::Bottom, Color::Red));
    assert!(assert_right_color(&grid, GridSide::Left, Color::Yellow));

    grid.move_face(GridSide::Front, MoveDirection::CounterClockwise);

    assert!(assert_solved_cube(&grid));
}

#[test]
fn grid_test_move_top() {
    let mut grid = create_solved_grid();
    grid.move_face(GridSide::Top, MoveDirection::Clockwise);

    assert!(assert_whole_color(&grid, GridSide::Top, Color::White));
    assert!(assert_top_color(&grid, GridSide::Front, Color::Red));
    assert!(assert_top_color(&grid, GridSide::Left, Color::Green));
    assert!(assert_top_color(&grid, GridSide::Right, Color::Blue));
    assert!(assert_top_color(&grid, GridSide::Back, Color::Orange));

    grid.move_face(GridSide::Top, MoveDirection::CounterClockwise);

    assert!(assert_solved_cube(&grid));
}

#[test]
fn grid_test_move_bottom() {
    let mut grid = create_solved_grid();
    grid.move_face(GridSide::Bottom, MoveDirection::Clockwise);

    assert!(assert_whole_color(&grid, GridSide::Bottom, Color::Yellow));
    assert!(assert_bottom_color(&grid, GridSide::Front, Color::Orange));
    assert!(assert_bottom_color(&grid, GridSide::Left, Color::Blue));
    assert!(assert_bottom_color(&grid, GridSide::Right, Color::Green));
    assert!(assert_bottom_color(&grid, GridSide::Back, Color::Red));

    grid.move_face(GridSide::Bottom, MoveDirection::CounterClockwise);

    assert!(assert_solved_cube(&grid));
}

#[test]
fn grid_test_move_back() {
    let mut grid = create_solved_grid();
    grid.move_face(GridSide::Back, MoveDirection::Clockwise);

    assert!(assert_whole_color(&grid, GridSide::Back, Color::Blue));
    assert!(assert_top_color(&grid, GridSide::Top, Color::Red));
    assert!(assert_right_color(&grid, GridSide::Right, Color::Yellow));
    assert!(assert_left_color(&grid, GridSide::Left, Color::White));
    assert!(assert_bottom_color(&grid, GridSide::Bottom, Color::Orange));

    grid.move_face(GridSide::Back, MoveDirection::CounterClockwise);

    assert!(assert_solved_cube(&grid));
}
