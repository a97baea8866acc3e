//! An RGB color with an opacity.
//!
//! Opacity is canonically a byte: 0 is fully transparent, 255 fully
//! opaque.  Callers working with fractional opacities convert at the
//! boundary.

use vstd::prelude::*;

verus! {

/// An RGB color with a byte opacity (255 = opaque).
#[derive(Clone, Copy, Debug, PartialEq, Eq, Structural)]
pub struct Color {
    pub r: u8,
    pub g: u8,
    pub b: u8,
    pub a: u8,
}

impl Color {
    /// Builds a color from its channels.
    pub fn new(r: u8, g: u8, b: u8, a: u8) -> (c: Color)
        ensures
            c == (Color { r, g, b, a }),
    {
        Color { r, g, b, a }
    }
}

} // verus!
