//! A software 3D-to-2D rendering pipeline over fixed-point integer arithmetic.
//!
//! A scene's triangle meshes are projected through a virtual camera,
//! rasterized into depth-tagged tiles, and composited into a final image.
//! All coordinates are whole world units; trigonometric values are scaled
//! integers, so every stage of the pipeline is deterministic and verified.

pub mod engine;
pub mod error;
pub mod math;
pub mod scene;
pub mod trig;
