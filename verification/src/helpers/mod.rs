//! Helpers around the renderer.

pub mod geometry;
pub mod immediate_mode;
