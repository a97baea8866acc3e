pub mod axis;
pub mod face;
pub mod mesh;
pub mod plane;
pub mod plane_direction;
pub mod point;
pub mod triangle;
pub mod vector;
