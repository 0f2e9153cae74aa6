//! A recording layer for a real-time 3D graphics API.
//!
//! Every operation of this library (clearing and writing to a render target,
//! copying between render targets, drawing a mesh or a skybox, the two passes
//! of the deferred Phong pipeline) is a function from plain values to the
//! exact, ordered list of graphics commands that carries it out, together
//! with the error that stopped it, if any. No function here talks to a
//! graphics device: the caller replays the commands on one.
//!
//! Objects that live on the device (framebuffers, textures, buffers, shader
//! programs) are referred to by names that the caller hands in. Numbers that
//! the device reads as single-precision values travel as their 32-bit
//! patterns; the library never does arithmetic on them.
//!
//! A few values remember what has been issued: which copy effects and which
//! shared mesh programs have been made, which effects and textures a
//! deferred pipeline holds. They change as a recording is made, as if the
//! device were to accept every command of it. Their fields are public, so
//! that a caller whose device refuses a command can set them back.

pub mod axes;
pub mod buffer;
pub mod camera;
pub mod context;
pub mod copy;
pub mod deferred_pipeline;
pub mod effect;
pub mod error;
pub mod light;
pub mod math;
pub mod mesh;
pub mod render_target;
pub mod render_target_array;
pub mod skybox;
pub mod states;
pub mod text;
pub mod texture;
