//! Verified core of a driver for a fixed 480x272 RGB565 panel: the panel's
//! timing data, the framebuffer, the layer state machine of the display
//! controller and the clipping draw surface on top of it.

pub mod color;
pub mod config;
pub mod controller;
pub mod display;
pub mod draw;
pub mod framebuffer;
pub mod geometry;
pub mod screen;
