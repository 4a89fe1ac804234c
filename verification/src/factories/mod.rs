//! Descriptions of GPU resources.

pub mod bind_group;
pub mod render_pass;
pub mod render_pipeline;
pub mod texture;
