//! A batched renderer of rounded rectangles.
//!
//! Rectangles are collected into a bounded batch and turned, once per frame,
//! into the calls of a single instanced draw. The crate decides which calls
//! are made, in which order and with which data; performing them is left to
//! the host, which owns the graphics context.

pub mod batch;
pub mod device;
pub mod lifecycle;
pub mod objects2d;
pub mod renderer;
pub mod shader;
pub mod state;

pub use batch::{InstanceBatch, MAX_INSTANCES};
pub use device::{
    BlendFactor, BufferUsage, Capability, GlCall, GlCallView, GlReply, GlReplyView, ObjectParameter,
    ShaderStage,
};
pub use lifecycle::{init, render, setViewport};
pub use objects2d::{add_rect, quad_vertices, InstanceData, QuadVertex};
pub use renderer::{RenderSetup, RenderState, VertexAttribute};
pub use shader::{compile_shader, LianaShader, ShaderBuild, ShaderCompile, ShaderError};
pub use state::LianaState;
