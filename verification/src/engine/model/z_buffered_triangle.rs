//! A triangle ready for rasterization: bitmap-space vertices that carry
//! their camera-space depth.

use vstd::prelude::*;
use vstd::math::abs;
use crate::math::CLIP_MAX;
use crate::math::WORLD_MAX;
use crate::scene::model::color::Color;

verus! {

/// A bitmap-space vertex with its camera-space depth.  The y axis points
/// down, as in bitmap convention.
#[derive(Clone, Copy, Debug, PartialEq, Eq, Structural)]
pub struct ZBufferedVertex {
    pub x: i64,
    pub y: i64,
    pub distance: i64,
}

impl ZBufferedVertex {
    /// Coordinates are inside the clip window and the depth within the
    /// world bounds.
    pub open spec fn wf(self) -> bool {
        &&& abs(self.x as int) <= CLIP_MAX as int
        &&& abs(self.y as int) <= CLIP_MAX as int
        &&& abs(self.distance as int) <= WORLD_MAX as int
    }
}

/// Three depth-tagged bitmap-space vertices with the triangle's color.
#[derive(Clone, Copy, Debug)]
pub struct ZBufferedTriangle {
    pub vertices: [ZBufferedVertex; 3],
    pub color: Color,
}

impl ZBufferedTriangle {
    /// All three vertices are inside the clip window.
    pub open spec fn wf(self) -> bool {
        self.vertices@[0].wf() && self.vertices@[1].wf() && self.vertices@[2].wf()
    }
}

} // verus!
