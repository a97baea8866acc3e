//! The rendering engine: projection, rasterization, and compositing.

pub mod color_blender;
pub mod compositor;
pub mod model;
pub mod projector;
pub mod rasterizer;
pub mod renderer;
