//! Core of a 3x3x3 twisty-puzzle simulator: the sticker-state engine with
//! verified permutation semantics, the side/axis taxonomy and move notation,
//! the orientation resolver that maps camera-relative directions to canonical
//! puzzle sides, the colour-reflection rules used when a layer is animated,
//! and an integer rasterizer that fills triangles into a cell buffer.

pub mod args;
pub mod cube;
pub mod cube_utils;
pub mod geometry;
pub mod grid;
pub mod scramble;
pub mod screen;
pub mod slice;

pub use cube_utils::Axis;
pub use cube_utils::Color;
