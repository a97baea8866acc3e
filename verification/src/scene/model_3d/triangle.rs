//! A triangle in world space, with its color.

use vstd::prelude::*;
use crate::scene::model::color::Color;
use crate::scene::model_3d::point::Point;

verus! {

/// Three world-space vertices and a color.
#[derive(Clone, Copy, Debug)]
pub struct Triangle {
    pub vertices: [Point; 3],
    pub color: Color,
}

impl Triangle {
    /// All three vertices are within the world bounds.
    pub open spec fn wf(self) -> bool {
        self.vertices@[0].wf() && self.vertices@[1].wf() && self.vertices@[2].wf()
    }

    /// Builds a triangle from its vertices and color.
    pub fn new(vertices: [Point; 3], color: Color) -> (t: Triangle)
        ensures
            t.vertices@ == vertices@,
            t.color == color,
    {
        Triangle { vertices, color }
    }

    /// The triangle's vertices.
    pub fn vertices(&self) -> (v: [Point; 3])
        ensures
            v@ == self.vertices@,
    {
        self.vertices
    }

    /// The triangle's color.
    pub fn color(&self) -> (c: Color)
        ensures
            c == self.color,
    {
        self.color
    }
}

} // verus!
