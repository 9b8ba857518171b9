//! Move-notation parsing: every letter and suffix, and the error for
//! anything else.

use kostka::cube_utils::Axis;
use kostka::grid::GridSide;
use kostka::grid::MoveDirection;
use kostka::slice::{CubeMove, CubeSliceOrder};

#[test]
fn parse_all_side_letters() {
    assert_eq!(
        CubeMove::from_str("R"),
        Ok((GridSide::Right, MoveDirection::Clockwise))
    );
    assert_eq!(
        CubeMove::from_str("L"),
        Ok((GridSide::Left, MoveDirection::Clockwise))
    );
    assert_eq!(
        CubeMove::from_str("U"),
        Ok((GridSide::Top, MoveDirection::Clockwise))
    );
    assert_eq!(
        CubeMove::from_str("D"),
        Ok((GridSide::Bottom, MoveDirection::Clockwise))
    );
    assert_eq!(
        CubeMove::from_str("F"),
        Ok((GridSide::Front, MoveDirection::Clockwise))
    );
    assert_eq!(
        CubeMove::from_str("B"),
        Ok((GridSide::Back, MoveDirection::Clockwise))
    );
    assert_eq!(
        CubeMove::from_str("M"),
        Ok((GridSide::MiddleX, MoveDirection::Clockwise))
    );
    assert_eq!(
        CubeMove::from_str("E"),
        Ok((GridSide::MiddleY, MoveDirection::Clockwise))
    );
    assert_eq!(
        CubeMove::from_str("S"),
        Ok((GridSide::MiddleZ, MoveDirection::Clockwise))
    );
}

#[test]
fn parse_suffixes() {
    assert_eq!(
        CubeMove::from_str("R'"),
        Ok((GridSide::Right, MoveDirection::CounterClockwise))
    );
    assert_eq!(
        CubeMove::from_str("U2"),
        Ok((GridSide::Top, MoveDirection::Double))
    );
    assert_eq!(
        CubeMove::from_str("M'"),
        Ok((GridSide::MiddleX, MoveDirection::CounterClockwise))
    );
    assert_eq!(
        CubeMove::from_str("S2"),
        Ok((GridSide::MiddleZ, MoveDirection::Double))
    );
}

#[test]
fn parse_errors_echo_token() {
    assert_eq!(
        CubeMove::from_str(""),
        Err("Incorrect move ''".to_string())
    );
    assert_eq!(
        CubeMove::from_str("X"),
        Err("Incorrect move 'X'".to_string())
    );
    assert_eq!(
        CubeMove::from_str("R3"),
        Err("Incorrect move 'R3'".to_string())
    );
    assert_eq!(
        CubeMove::from_str("R''"),
        Err("Incorrect move 'R'''".to_string())
    );
    assert_eq!(
        CubeMove::from_str("r"),
        Err("Incorrect move 'r'".to_string())
    );
}

#[test]
fn from_side_derives_axis_and_order() {
    let mv = CubeMove::from_side(GridSide::Right, MoveDirection::Double);
    assert_eq!(mv.grid_side, GridSide::Right);
    assert_eq!(mv.direction, MoveDirection::Double);
    assert_eq!(mv.axis, Axis::X);
    assert_eq!(mv.order, CubeSliceOrder::LAST);

    let mv = CubeMove::from_side(GridSide::MiddleY, MoveDirection::Clockwise);
    assert_eq!(mv.axis, Axis::Y);
    assert_eq!(mv.order, CubeSliceOrder::MIDDLE);
}
