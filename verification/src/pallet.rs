//! The fixed colour palette of the front panel.

use vstd::prelude::*;

verus! {

/// One LED colour as plain red, green and blue channel values.
#[derive(Clone, Copy, PartialEq, Eq, Structural, Debug)]
pub struct Rgb {
    pub r: u8,
    pub g: u8,
    pub b: u8,
}

/// The colour with all channels off.
pub open spec fn spec_black() -> Rgb {
    Rgb { r: 0, g: 0, b: 0 }
}

impl Rgb {
    pub fn new(r: u8, g: u8, b: u8) -> (c: Self)
        ensures
            c == (Rgb { r, g, b }),
    {
        Rgb { r, g, b }
    }
}

impl Default for Rgb {
    /// The default colour is black: all channels off.
    fn default() -> (c: Self)
        ensures
            c == spec_black(),
    {
        Rgb { r: 0, g: 0, b: 0 }
    }
}

/// The named colours the front panel uses.
#[derive(Clone, Copy, PartialEq, Eq, Structural, Debug)]
pub enum Colors {
    Black,
    Red,
    Orange,
    Yellow,
    Green,
    Cyan,
    Blue,
    Magenta,
    White,
}

/// The channel values of each named colour, dimmed to roughly a quarter of
/// full brightness.
pub open spec fn spec_color_rgb(c: Colors) -> Rgb {
    match c {
        Colors::Black => Rgb { r: 0x00, g: 0x00, b: 0x00 },
        Colors::Red => Rgb { r: 0x3f, g: 0x00, b: 0x00 },
        Colors::Orange => Rgb { r: 0x3f, g: 0x1f, b: 0x00 },
        Colors::Yellow => Rgb { r: 0x3f, g: 0x3f, b: 0x00 },
        Colors::Green => Rgb { r: 0x00, g: 0x3f, b: 0x00 },
        Colors::Cyan => Rgb { r: 0x00, g: 0x3f, b: 0x3f },
        Colors::Blue => Rgb { r: 0x00, g: 0x00, b: 0x3f },
        Colors::Magenta => Rgb { r: 0x3f, g: 0x00, b: 0x3f },
        Colors::White => Rgb { r: 0x3f, g: 0x3f, b: 0x3f },
    }
}

impl Colors {
    /// The channel values of this named colour.
    pub fn as_rgb(&self) -> (c: Rgb)
        ensures
            c == spec_color_rgb(*self),
    {
        match *self {
            Colors::Black => Rgb::new(0x00, 0x00, 0x00),
            Colors::Red => Rgb::new(0x3f, 0x00, 0x00),
            Colors::Orange => Rgb::new(0x3f, 0x1f, 0x00),
            Colors::Yellow => Rgb::new(0x3f, 0x3f, 0x00),
            Colors::Green => Rgb::new(0x00, 0x3f, 0x00),
            Colors::Cyan => Rgb::new(0x00, 0x3f, 0x3f),
            Colors::Blue => Rgb::new(0x00, 0x00, 0x3f),
            Colors::Magenta => Rgb::new(0x3f, 0x00, 0x3f),
            Colors::White => Rgb::new(0x3f, 0x3f, 0x3f),
        }
    }
}

} // verus!
