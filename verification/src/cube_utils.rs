//! Sticker colours and the three rotation axes.

use vstd::prelude::*;

verus! {

/// A sticker or display colour: the six puzzle colours plus two neutral
/// markers (`Gray` for internal, never-assigned surfaces and `Black` for the
/// display background).
#[derive(Debug, Clone, Copy, PartialEq, Eq, Structural)]
pub enum Color {
    White,
    Yellow,
    Blue,
    Red,
    Green,
    Orange,
    Gray,
    Black,
}

/// The ANSI escape sequence that selects `c` as the foreground colour.
/// `Black` is only ever used as the display background and has no code.
pub open spec fn ansi_code(c: Color) -> Seq<char> {
    match c {
        Color::White => "\x1b[97m"@,
        Color::Yellow => "\x1b[93m"@,
        Color::Blue => "\x1b[94m"@,
        Color::Red => "\x1b[91m"@,
        Color::Green => "\x1b[92m"@,
        Color::Orange => "\x1b[38;5;208m"@,
        Color::Gray => "\x1b[90m"@,
        Color::Black => Seq::<char>::empty(),
    }
}

/// The RGBA pixel value of `c`, as shown in a framebuffer.
pub open spec fn rgba_code(c: Color) -> Seq<u8> {
    match c {
        Color::White => seq![235u8, 235u8, 235u8, 0xffu8],
        Color::Yellow => seq![239u8, 249u8, 102u8, 0xffu8],
        Color::Blue => seq![74u8, 150u8, 221u8, 0xffu8],
        Color::Red => seq![249u8, 44u8, 59u8, 0xffu8],
        Color::Green => seq![118u8, 242u8, 139u8, 0xffu8],
        Color::Orange => seq![254u8, 146u8, 43u8, 0xffu8],
        Color::Gray => seq![160u8, 152u8, 160u8, 0xffu8],
        Color::Black => seq![35u8, 32u8, 47u8, 0xffu8],
    }
}

impl Color {
    /// The ANSI foreground escape code of this colour; the background colour
    /// `Black` is never printed and is excluded.
    pub fn to_ansi(&self) -> (r: &'static str)
        requires
            *self != Color::Black,
        ensures
            r@ == ansi_code(*self),
    {
        match self {
            Color::White => "\x1b[97m",
            Color::Yellow => "\x1b[93m",
            Color::Blue => "\x1b[94m",
            Color::Red => "\x1b[91m",
            Color::Green => "\x1b[92m",
            Color::Orange => "\x1b[38;5;208m",
            Color::Gray => "\x1b[90m",
            Color::Black => unreached(),
        }
    }

    /// The RGBA pixel value of this colour.
    pub fn rgba(&self) -> (r: [u8; 4])
        ensures
            r@ == rgba_code(*self),
    {
        match self {
            Color::White => [235, 235, 235, 0xff],
            Color::Yellow => [239, 249, 102, 0xff],
            Color::Blue => [74, 150, 221, 0xff],
            Color::Red => [249, 44, 59, 0xff],
            Color::Green => [118, 242, 139, 0xff],
            Color::Orange => [254, 146, 43, 0xff],
            Color::Gray => [160, 152, 160, 0xff],
            Color::Black => [35, 32, 47, 0xff],
        }
    }
}

/// One of the three rotation axes of the solid. `X` runs left to right,
/// `Y` bottom to top and `Z` front to back.
#[derive(Debug, Clone, Copy, PartialEq, Eq, Structural)]
pub enum Axis {
    X,
    Y,
    Z,
}

} // verus!
