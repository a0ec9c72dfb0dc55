//! The fixed color palette that plotted functions cycle through.
//!
//! Color channels count 255ths, so that the palette entries and the fixed
//! chrome colors (background, grid, axes) are all exact.
use vstd::prelude::*;

verus! {

/// An RGB color; each channel counts 255ths of full intensity.
#[derive(Clone, Copy, Debug, PartialEq, Eq, Structural)]
pub struct Color {
    pub r: u8,
    pub g: u8,
    pub b: u8,
}

/// How many colors the palette holds before it cycles.
pub const PALETTE_LEN: usize = 16;

/// The palette entry at `i`, for `0 <= i < PALETTE_LEN`.
pub open spec fn palette_color(i: int) -> Color {
    if i == 0 {
        Color { r: 26, g: 188, b: 156 }
    } else if i == 1 {
        Color { r: 46, g: 204, b: 113 }
    } else if i == 2 {
        Color { r: 52, g: 152, b: 219 }
    } else if i == 3 {
        Color { r: 155, g: 89, b: 182 }
    } else if i == 4 {
        Color { r: 52, g: 73, b: 94 }
    } else if i == 5 {
        Color { r: 22, g: 160, b: 133 }
    } else if i == 6 {
        Color { r: 39, g: 174, b: 96 }
    } else if i == 7 {
        Color { r: 41, g: 128, b: 185 }
    } else if i == 8 {
        Color { r: 142, g: 68, b: 173 }
    } else if i == 9 {
        Color { r: 44, g: 62, b: 80 }
    } else if i == 10 {
        Color { r: 241, g: 196, b: 15 }
    } else if i == 11 {
        Color { r: 230, g: 126, b: 34 }
    } else if i == 12 {
        Color { r: 231, g: 76, b: 60 }
    } else if i == 13 {
        Color { r: 243, g: 156, b: 18 }
    } else if i == 14 {
        Color { r: 211, g: 84, b: 0 }
    } else {
        Color { r: 192, g: 57, b: 43 }
    }
}

/// Look the palette up at `i`.
pub fn palette(i: usize) -> (c: Color)
    requires
        i < PALETTE_LEN,
    ensures
        c == palette_color(i as int),
{
    match i {
        0 => Color { r: 26, g: 188, b: 156 },
        1 => Color { r: 46, g: 204, b: 113 },
        2 => Color { r: 52, g: 152, b: 219 },
        3 => Color { r: 155, g: 89, b: 182 },
        4 => Color { r: 52, g: 73, b: 94 },
        5 => Color { r: 22, g: 160, b: 133 },
        6 => Color { r: 39, g: 174, b: 96 },
        7 => Color { r: 41, g: 128, b: 185 },
        8 => Color { r: 142, g: 68, b: 173 },
        9 => Color { r: 44, g: 62, b: 80 },
        10 => Color { r: 241, g: 196, b: 15 },
        11 => Color { r: 230, g: 126, b: 34 },
        12 => Color { r: 231, g: 76, b: 60 },
        13 => Color { r: 243, g: 156, b: 18 },
        14 => Color { r: 211, g: 84, b: 0 },
        _ => Color { r: 192, g: 57, b: 43 },
    }
}

/// The canvas background: light gray.
pub fn background_color() -> (c: Color)
    ensures
        c == (Color { r: 230, g: 230, b: 230 }),
{
    Color { r: 230, g: 230, b: 230 }
}

/// Ordinary grid lines: medium gray.
pub fn grid_color() -> (c: Color)
    ensures
        c == (Color { r: 153, g: 153, b: 153 }),
{
    Color { r: 153, g: 153, b: 153 }
}

/// The two axis lines through the viewport center: dark gray.
pub fn axis_color() -> (c: Color)
    ensures
        c == (Color { r: 77, g: 77, b: 77 }),
{
    Color { r: 77, g: 77, b: 77 }
}

} // verus!
