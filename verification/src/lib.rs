//! A verified core for a small real-time 3-D renderer.
//!
//! The library models the GPU resource-binding protocol and the multi-pass
//! render pipeline as pure logic over plain values: uniform writes, texture
//! slot accounting, std140 uniform-block encoding, geometry generation and
//! pass ordering all produce an explicit stream of GPU commands that an
//! embedder executes against a real graphics context. Floating-point values
//! are carried through the pipeline as their IEEE-754 bit patterns (`u32`),
//! which the binding protocol never inspects.

pub mod camera;
pub mod command;
pub mod geometry;
pub mod img;
pub mod light;
pub mod material;
pub mod math;
pub mod mesh;
pub mod reflect;
pub mod scene;
pub mod screen_capture;
pub mod shader;
pub mod std140;
pub mod text;
pub mod texture;
pub mod user_inputs;

pub use camera::Camera;
pub use command::GlCommand;
pub use scene::Scene;
pub use shader::{ActiveShader, Shader, UniformValue};
