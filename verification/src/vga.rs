//! The data side of the text console: screen dimensions, the palette, and
//! the encoding of one character cell. The console renderer itself writes a
//! memory-mapped hardware buffer and stays outside the verified library;
//! the shell logic here only needs these values.

use vstd::prelude::*;

verus! {

/// Columns per text row.
pub const VGA_WIDTH: usize = 80;

/// Visible text rows.
pub const VGA_HEIGHT: usize = 25;

/// Rows kept per screen, scrollback included.
pub const VGA_HISTORY: usize = 200;

/// Number of virtual screens.
pub const VGA_SCREENS: usize = 4;

/// The 16-color text palette.
#[derive(Debug, Clone, Copy, PartialEq, Eq, Structural)]
pub enum Color {
    Black,
    Blue,
    Green,
    Cyan,
    Red,
    Magenta,
    Brown,
    LightGray,
    DarkGray,
    LightBlue,
    LightGreen,
    LightCyan,
    LightRed,
    Pink,
    Yellow,
    White,
}

/// The palette index of a color, as the hardware encodes it.
pub open spec fn color_index_spec(c: Color) -> u8 {
    match c {
        Color::Black => 0u8,
        Color::Blue => 1u8,
        Color::Green => 2u8,
        Color::Cyan => 3u8,
        Color::Red => 4u8,
        Color::Magenta => 5u8,
        Color::Brown => 6u8,
        Color::LightGray => 7u8,
        Color::DarkGray => 8u8,
        Color::LightBlue => 9u8,
        Color::LightGreen => 10u8,
        Color::LightCyan => 11u8,
        Color::LightRed => 12u8,
        Color::Pink => 13u8,
        Color::Yellow => 14u8,
        Color::White => 15u8,
    }
}

/// The palette index of a color.
pub fn color_index(c: Color) -> (r: u8)
    ensures
        r == color_index_spec(c),
        r < 16,
{
    match c {
        Color::Black => 0,
        Color::Blue => 1,
        Color::Green => 2,
        Color::Cyan => 3,
        Color::Red => 4,
        Color::Magenta => 5,
        Color::Brown => 6,
        Color::LightGray => 7,
        Color::DarkGray => 8,
        Color::LightBlue => 9,
        Color::LightGreen => 10,
        Color::LightCyan => 11,
        Color::LightRed => 12,
        Color::Pink => 13,
        Color::Yellow => 14,
        Color::White => 15,
    }
}

/// One attribute byte: background palette index high, foreground low.
#[derive(Debug, Clone, Copy, PartialEq, Eq, Structural)]
pub struct ColorCode {
    /// The encoded attribute byte.
    pub bits: u8,
}

impl ColorCode {
    pub fn new(foreground: Color, background: Color) -> (r: Self)
        ensures
            r.bits == 16 * color_index_spec(background) + color_index_spec(foreground),
    {
        let fg = color_index(foreground);
        let bg = color_index(background);
        proof {
            assert(bg < 16 && fg < 16 ==> ((bg << 4) | fg) == bg * 16 + fg) by (bit_vector);
        }
        ColorCode { bits: (bg << 4) | fg }
    }
}

/// One character cell as the hardware buffer stores it.
#[derive(Debug, Clone, Copy, PartialEq, Eq, Structural)]
pub struct ScreenChar {
    pub ascii_character: u8,
    pub color_code: ColorCode,
}

impl ScreenChar {
    /// An invisible blank: a space drawn black on black.
    pub fn black_space() -> (r: Self)
        ensures
            r == (ScreenChar { ascii_character: 32u8, color_code: ColorCode { bits: 0 } }),
    {
        ScreenChar { ascii_character: 32, color_code: ColorCode::new(Color::Black, Color::Black) }
    }

    /// A visible blank: a space drawn white on black.
    pub fn white_space() -> (r: Self)
        ensures
            r == (ScreenChar { ascii_character: 32u8, color_code: ColorCode { bits: 15 } }),
    {
        ScreenChar { ascii_character: 32, color_code: ColorCode::new(Color::White, Color::Black) }
    }
}

} // verus!
