//! The display and speed settings offered on the command line.  The
//! front end parses options into these steps; the numeric values each
//! step stands for are fixed here.

use vstd::prelude::*;

verus! {

/// A display resolution step.
#[derive(Debug, Clone, Copy, PartialEq, Eq, Structural)]
pub enum Resolution {
    Low,
    Medium,
    High,
}

/// The square pixel dimension that a resolution step selects.
pub open spec fn dimension_of(r: Resolution) -> int {
    match r {
        Resolution::Low => 180,
        Resolution::Medium => 320,
        Resolution::High => 480,
    }
}

impl Resolution {
    /// The window's width and height in pixels.
    pub fn get_dimension(self) -> (r: u32)
        ensures
            r == dimension_of(self),
    {
        match self {
            Resolution::Low => 180,
            Resolution::Medium => 320,
            Resolution::High => 480,
        }
    }
}

/// How fast the whole solid rotates under the view controls.
#[derive(Debug, Clone, Copy, PartialEq, Eq, Structural)]
pub enum RotationSpeed {
    Low,
    Medium,
    High,
}

/// How fast a turn animates.
#[derive(Debug, Clone, Copy, PartialEq, Eq, Structural)]
pub enum MoveSpeed {
    Low,
    Medium,
    High,
}

/// The number of animation steps a turn takes at a move-speed step;
/// slower settings use more steps.
pub open spec fn no_steps_of(m: MoveSpeed) -> int {
    match m {
        MoveSpeed::Low => 32,
        MoveSpeed::Medium => 16,
        MoveSpeed::High => 8,
    }
}

impl MoveSpeed {
    /// The number of animation steps one turn takes.
    pub fn get_no_steps(self) -> (r: u8)
        ensures
            r == no_steps_of(self),
    {
        match self {
            MoveSpeed::Low => 32,
            MoveSpeed::Medium => 16,
            MoveSpeed::High => 8,
        }
    }
}

} // verus!
