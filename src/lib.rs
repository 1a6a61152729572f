//! Layout arithmetic and geometry for a small tileset viewer: a textured quad
//! kept undistorted above a fixed-height info bar, and a coloured rectangle
//! overlay. Layout quantities are exact fractions of integers.

pub mod ratio;
pub mod layout;
pub mod render_area;
pub mod geometry;
pub mod tileset_renderer;
pub mod rectangle_renderer;
