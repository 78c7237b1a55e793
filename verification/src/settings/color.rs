//! Colors, gradients and alignments.

use vstd::prelude::*;

verus! {

/// The bits of the number one in single precision.
pub const ONE: u32 = 0x3f80_0000;

/// A color with transparency. Each channel is a number from zero to one in
/// single precision; it is held by the bits of that number, so that two
/// colors are equal exactly when they are the same bit for bit, and it is
/// passed on without any arithmetic.
#[derive(Clone, Copy, Debug, PartialEq, Eq, Structural, Hash)]
pub struct Color {
    /// The bits of the red channel.
    pub red: u32,
    /// The bits of the green channel.
    pub green: u32,
    /// The bits of the blue channel.
    pub blue: u32,
    /// The bits of the opacity.
    pub alpha: u32,
}

impl Color {
    /// The color with the given bits in its channels.
    pub fn from_bits(red: u32, green: u32, blue: u32, alpha: u32) -> (result: Color)
        ensures
            result == (Color { red, green, blue, alpha }),
    {
        Color { red, green, blue, alpha }
    }

    /// The color that lets everything behind it through.
    pub fn transparent() -> (result: Color)
        ensures
            result == (Color { red: 0, green: 0, blue: 0, alpha: 0 }),
    {
        Color { red: 0, green: 0, blue: 0, alpha: 0 }
    }

    /// Opaque black.
    pub fn black() -> (result: Color)
        ensures
            result == (Color { red: 0, green: 0, blue: 0, alpha: ONE }),
    {
        Color { red: 0, green: 0, blue: 0, alpha: ONE }
    }

    /// Opaque white.
    pub fn white() -> (result: Color)
        ensures
            result == (Color { red: ONE, green: ONE, blue: ONE, alpha: ONE }),
    {
        Color { red: ONE, green: ONE, blue: ONE, alpha: ONE }
    }
}

/// What fills a background.
#[derive(Clone, Copy, Debug, PartialEq, Eq, Structural, Hash)]
pub enum Gradient {
    /// Nothing.
    Transparent,
    /// One color.
    Plain(Color),
    /// A blend from the first color at the top to the second at the bottom.
    Vertical(Color, Color),
    /// A blend from the first color at the left to the second at the right.
    Horizontal(Color, Color),
}

/// Where a text stands in its row.
#[derive(Clone, Copy, Debug, PartialEq, Eq, Structural, Hash)]
pub enum Alignment {
    /// Where the component sees fit.
    Auto,
    /// At the left.
    Left,
    /// In the middle.
    Center,
}

} // verus!
