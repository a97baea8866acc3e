//! One rasterized sample: a color with opacity, tagged with its
//! camera-space depth.

use vstd::prelude::*;
use crate::scene::model::color::Color;

verus! {

/// A rasterized sample.  A zero opacity marks a cell no edge or fill
/// line has touched.
#[derive(Clone, Copy, Debug, PartialEq, Eq, Structural)]
pub struct DepthPixel {
    pub color: Color,
    pub depth: i64,
}

impl DepthPixel {
    /// Builds a sample at depth zero from color channels.
    pub fn new(r: u8, g: u8, b: u8, a: u8) -> (p: DepthPixel)
        ensures
            p == (DepthPixel { color: Color { r, g, b, a }, depth: 0i64 }),
    {
        DepthPixel { color: Color { r, g, b, a }, depth: 0 }
    }
}

impl Default for DepthPixel {
    /// The blank sample: fully transparent black at depth zero.
    fn default() -> (p: Self)
        ensures
            p == (DepthPixel { color: Color { r: 0u8, g: 0u8, b: 0u8, a: 0u8 }, depth: 0i64 }),
    {
        DepthPixel { color: Color { r: 0, g: 0, b: 0, a: 0 }, depth: 0 }
    }
}

} // verus!
