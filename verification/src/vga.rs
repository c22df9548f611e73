//! Character-cell console values: colors, cell styles and cells. Only the
//! value encodings live here; the memory-mapped buffer they are written to
//! belongs to the platform layer.

use vstd::prelude::*;

verus! {

/// The sixteen console colors, in their hardware numbering.
#[derive(Clone, Copy, Debug, PartialEq, Eq, Structural)]
pub enum Color {
    Black,
    Blue,
    Green,
    Cyan,
    Red,
    Magenta,
    Brown,
    LightGray,
    DarkGray,
    LightBlue,
    LightGreen,
    LightCyan,
    LightRed,
    Pink,
    Yellow,
    White,
}

impl Color {
    /// The hardware code of this color.
    pub open spec fn spec_code(&self) -> u8 {
        match self {
            Color::Black => 0,
            Color::Blue => 1,
            Color::Green => 2,
            Color::Cyan => 3,
            Color::Red => 4,
            Color::Magenta => 5,
            Color::Brown => 6,
            Color::LightGray => 7,
            Color::DarkGray => 8,
            Color::LightBlue => 9,
            Color::LightGreen => 10,
            Color::LightCyan => 11,
            Color::LightRed => 12,
            Color::Pink => 13,
            Color::Yellow => 14,
            Color::White => 15,
        }
    }

    /// The hardware code of this color.
    pub fn code(&self) -> (r: u8)
        ensures
            r == self.spec_code(),
            r < 16,
    {
        match self {
            Color::Black => 0,
            Color::Blue => 1,
            Color::Green => 2,
            Color::Cyan => 3,
            Color::Red => 4,
            Color::Magenta => 5,
            Color::Brown => 6,
            Color::LightGray => 7,
            Color::DarkGray => 8,
            Color::LightBlue => 9,
            Color::LightGreen => 10,
            Color::LightCyan => 11,
            Color::LightRed => 12,
            Color::Pink => 13,
            Color::Yellow => 14,
            Color::White => 15,
        }
    }
}

/// A cell style: background color in the high four bits, foreground in the
/// low four.
#[derive(Clone, Copy, Debug, PartialEq, Eq, Structural)]
pub struct Style {
    /// The packed style byte.
    pub bits: u8,
}

impl Style {
    /// The style with the given foreground on the given background. The
    /// background code fills the high four bits, so the packed byte is
    /// sixteen times the background code plus the foreground code.
    pub fn new(foreground: Color, background: Color) -> (r: Style)
        ensures
            r.bits == background.spec_code() * 16 + foreground.spec_code(),
    {
        Style { bits: background.code() * 16 + foreground.code() }
    }

    /// A blank cell (the space character, byte 0x20) in this style.
    pub fn blank(&self) -> (r: Char)
        ensures
            r == (Char { byte: 0x20u8, style: *self }),
    {
        Char { byte: 0x20u8, style: *self }
    }
}

/// One character cell: a byte of text and its style.
#[derive(Clone, Copy, Debug, PartialEq, Eq, Structural)]
pub struct Char {
    /// The displayed byte.
    pub byte: u8,
    /// The cell's style.
    pub style: Style,
}

} // verus!
