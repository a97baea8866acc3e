pub mod depth_pixel;
pub mod pixel;
pub mod z_buffered_triangle;
