pub mod point;
pub mod triangle;
