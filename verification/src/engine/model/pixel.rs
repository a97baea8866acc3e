//! One opaque pixel of the final image.

use vstd::prelude::*;

verus! {

/// An opaque RGB pixel.
#[derive(Clone, Copy, Debug, PartialEq, Eq, Structural)]
pub struct Pixel {
    pub r: u8,
    pub g: u8,
    pub b: u8,
}

impl Pixel {
    /// Builds a pixel from its channels.
    pub fn new(r: u8, g: u8, b: u8) -> (p: Pixel)
        ensures
            p == (Pixel { r, g, b }),
    {
        Pixel { r, g, b }
    }
}

impl Default for Pixel {
    /// The black pixel.
    fn default() -> (p: Self)
        ensures
            p == (Pixel { r: 0u8, g: 0u8, b: 0u8 }),
    {
        Pixel { r: 0, g: 0, b: 0 }
    }
}

} // verus!
