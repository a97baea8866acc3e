//! The errors a render call can surface.

use vstd::prelude::*;

verus! {

/// A failure that aborts a render call; no partial image is produced.
#[derive(Clone, Copy, Debug, PartialEq, Eq, Structural)]
pub enum RenderError {
    /// A face references a vertex index at or beyond the mesh's vertex
    /// count.
    InvalidGeometry { face_index: usize, vertex_index: usize, vertex_count: usize },
}

impl RenderError {
    /// A short human-readable description.
    pub fn message(&self) -> (m: &'static str)
        ensures
            m@ =~= "face references a vertex index outside the mesh's vertex list"@,
    {
        match self {
            RenderError::InvalidGeometry { .. } => {
                "face references a vertex index outside the mesh's vertex list"
            }
        }
    }
}

} // verus!
