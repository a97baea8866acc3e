//! The scene-facing data model: cameras, colors, and the 2D and 3D
//! geometric primitives that the engine consumes.

pub mod camera;
pub mod model;
pub mod model_2d;
pub mod model_3d;
