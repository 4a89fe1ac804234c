//! Image-based lighting, precomputed from one equirectangular image: a
//! base cubemap, an irradiance cubemap, a specular cubemap and a BRDF
//! lookup table.
//!
//! The library holds what is decided on the CPU, as verified integer
//! logic: the geometry of the cube faces, the textures, views, pipelines
//! and passes of every stage and the order in which they run, the
//! validity of the inputs, and the stages that only move texels. A host
//! creates on a GPU what the library describes and submits what it plans.

pub mod factories;
pub mod helpers;
pub mod pipelines;
pub mod state;
