//! A plain-value color model: non-linear sRGB channels with alpha, eight bits
//! each, as the host engine's renderer accepts them.

use vstd::prelude::*;

verus! {

/// A color as four eight-bit sRGB channels.
#[derive(Debug, Clone, Copy, PartialEq, Eq)]
pub struct Rgba {
    /// The red channel.
    pub red: u8,
    /// The green channel.
    pub green: u8,
    /// The blue channel.
    pub blue: u8,
    /// The alpha channel; zero is fully transparent.
    pub alpha: u8,
}

/// Fully opaque white.
pub open spec fn spec_white() -> Rgba {
    Rgba { red: 255, green: 255, blue: 255, alpha: 255 }
}

/// Fully opaque black.
pub open spec fn spec_black() -> Rgba {
    Rgba { red: 0, green: 0, blue: 0, alpha: 255 }
}

/// The fully transparent color.
pub open spec fn spec_clear() -> Rgba {
    Rgba { red: 0, green: 0, blue: 0, alpha: 0 }
}

impl Rgba {
    /// Builds a color from its four channels.
    pub fn new(red: u8, green: u8, blue: u8, alpha: u8) -> (r: Self)
        ensures
            r == (Rgba { red, green, blue, alpha }),
    {
        Rgba { red, green, blue, alpha }
    }

    /// Fully opaque white.
    pub fn white() -> (r: Self)
        ensures
            r == spec_white(),
    {
        Rgba { red: 255, green: 255, blue: 255, alpha: 255 }
    }

    /// Fully opaque black.
    pub fn black() -> (r: Self)
        ensures
            r == spec_black(),
    {
        Rgba { red: 0, green: 0, blue: 0, alpha: 255 }
    }

    /// The fully transparent color.
    pub fn clear() -> (r: Self)
        ensures
            r == spec_clear(),
    {
        Rgba { red: 0, green: 0, blue: 0, alpha: 0 }
    }
}

impl Default for Rgba {
    /// The default color draws nothing: fully transparent.
    fn default() -> (r: Self)
        ensures
            r == spec_clear(),
    {
        Rgba::clear()
    }
}

} // verus!
