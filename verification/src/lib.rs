//! Incremental-redraw sprites, fixed-point bitmap rotation and a seeded
//! chase policy for a small raster display.
//!
//! Nothing here touches a display or a sensor. Every operation takes plain
//! values and hands back plain values: the rectangles to repaint, the pixels
//! to plot, the next position of a sprite.

pub mod bitmap;
pub mod decode;
pub mod dirty;
pub mod draw;
pub mod fixed_point;
pub mod geometry;
pub mod hunt;
pub mod menu;
pub mod movable_sprite;
pub mod paint;
pub mod pursuit;
pub mod rotate;
pub mod screens;
pub mod sprite;
