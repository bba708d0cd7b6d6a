//! A CPU-executed triangle rasterization pipeline with verified contracts.
//!
//! The crate projects triangle meshes through model, view and projection
//! transforms, scan-converts them with an exact top-left fill rule, performs
//! depth testing and perspective-correct attribute interpolation, and shades
//! each covered pixel either with a physically based (Cook-Torrance) shader
//! or with a base-color pass-through shader.  All arithmetic is deterministic
//! fixed point, so every stage carries an exact functional contract: a draw
//! call's output buffers are pinned, cell by cell, as a fold of a per-pixel
//! function over the triangle list.

pub mod fx;
pub mod geom;
pub mod framebuffer;
pub mod image;
pub mod model;
pub mod shader;
pub mod pbr_shader;
pub mod pipeline;
pub mod laws;
pub mod timer;
pub mod util;
