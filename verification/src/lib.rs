//! Runtime core of a small 2D arcade shooter: geometry, edge-triggered
//! keyboard tracking, sprite animation, the bullet/asteroid update pipeline,
//! and the view/scheduler state machine that drives a fixed-rate game loop.
//!
//! All quantities are fixed-point integers so that frame arithmetic is exact:
//! positions, sizes and distances are in milli-pixels (one pixel is 1000
//! units), times are in milliseconds, and linear speeds are in pixels per
//! second, so a speed multiplied by a duration in milliseconds is exactly a
//! distance in milli-pixels. The presentation layer converts to device
//! coordinates at its own boundary.

pub mod data;
pub mod events;
pub mod gfx;
pub mod rng;
pub mod game;
pub mod phi;
pub mod trig;
pub mod views;
