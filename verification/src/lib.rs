//! Post-processing anti-aliasing (FXAA) for a frame-graph renderer: the
//! per-camera settings, the pipeline and texture provisioning, and the
//! frame node that orders the blit passes.
//!
//! The library decides; the host renders. Every function here takes plain
//! values that describe the host's state and returns plain values that say
//! what to create, queue and draw.

pub mod node;
pub mod pipeline;
pub mod plugin;
pub mod prepare;
pub mod settings;
pub mod target_textures;

pub use node::FxaaNode;
pub use pipeline::{FXAAPipelineBindGroup, FXAAPipelines};
pub use plugin::{FXAAPlugin, FXAA_NODE_2D, FXAA_NODE_3D};
pub use prepare::{prepare_fxaa_texture, FXAATexture};
pub use settings::{Quality, FXAA};
