//! Geometry and rasterization core for a terminal tetromino renderer.
//!
//! Shapes are fixed four-block polyominoes on a non-negative integer grid.
//! They can be rotated in quarter turns around the center of their enclosing
//! square and rasterized into a logical pixel grid that maps to terminal
//! character cells through per-axis density factors.

pub mod catalog;
pub mod framebuffer;
pub mod piece;
pub mod pixel;
pub mod rotation;
pub mod rounding;
pub mod shape;
pub mod vecs;
