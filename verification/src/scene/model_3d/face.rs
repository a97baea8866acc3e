//! A face of a mesh: three vertex indices and a color.

use vstd::prelude::*;
use crate::scene::model::color::Color;

verus! {

/// Three indices into a mesh's vertex list, with the face's color.
#[derive(Clone, Copy, Debug)]
pub struct Face {
    pub vertices: [usize; 3],
    pub color: Color,
}

impl Face {
    /// Builds a face from its vertex indices and color.
    pub fn new(vertices: [usize; 3], color: Color) -> (f: Face)
        ensures
            f.vertices@ == vertices@,
            f.color == color,
    {
        Face { vertices, color }
    }
}

} // verus!
