//! A triangle in screen space.

use vstd::prelude::*;
use crate::scene::model_2d::point::Point;

verus! {

/// Three screen-space vertices, the projection of a 3D triangle.
#[derive(Clone, Copy, Debug)]
pub struct Triangle {
    pub vertices: [Point; 3],
}

impl Triangle {
    /// Builds a triangle from its vertices.
    pub fn new(vertices: [Point; 3]) -> (t: Triangle)
        ensures
            t == (Triangle { vertices }),
    {
        Triangle { vertices }
    }
}

} // verus!
