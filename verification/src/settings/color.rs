use vstd::prelude::*;

verus! {

/// A colour with an alpha channel. A colour is carried and never computed
/// with: each channel is kept as the bit pattern of the single-precision
/// number between 0 and 1 that gives its strength.
#[derive(Clone, Copy, Debug, PartialEq, Eq, Hash, Structural)]
pub struct Color {
    pub red: u32,
    pub green: u32,
    pub blue: u32,
    pub alpha: u32,
}

impl Color {
    /// The colour with the given channels, each as a bit pattern.
    pub fn rgba(red: u32, green: u32, blue: u32, alpha: u32) -> (r: Color)
        ensures
            r == (Color { red, green, blue, alpha }),
    {
        Color { red, green, blue, alpha }
    }

    /// The colour through which everything shows: every channel is 0.
    pub open spec fn spec_transparent() -> Color {
        Color { red: 0, green: 0, blue: 0, alpha: 0 }
    }

    /// The colour through which everything shows.
    pub fn transparent() -> (r: Color)
        ensures
            r == Color::spec_transparent(),
    {
        Color { red: 0, green: 0, blue: 0, alpha: 0 }
    }
}

/// How an area is filled.
#[derive(Clone, Copy, Debug, PartialEq, Eq, Hash, Structural)]
pub enum Gradient {
    /// Not at all.
    Transparent,
    /// With one colour.
    Plain(Color),
    /// From the first colour at the top to the second at the bottom.
    Vertical(Color, Color),
    /// From the first colour at the left to the second at the right.
    Horizontal(Color, Color),
}

/// How the rows of a list are filled.
#[derive(Clone, Copy, Debug, PartialEq, Eq, Hash, Structural)]
pub enum ListGradient {
    /// The whole list is one area.
    Same(Gradient),
    /// The rows take the two colours in turn.
    Alternating(Color, Color),
}

} // verus!
