//! Verified core of a wgpu renderer for Inochi2D puppets.
//!
//! The library records the draw stream that a puppet produces (masks,
//! composites and textured meshes), lays out the vertex, index and uniform
//! data that go to the GPU, and turns the recorded commands into the
//! sequence of render-pass operations that a GPU backend executes.
//! Everything here works on plain values; the GPU objects themselves live
//! with the caller.

pub mod cmd;
pub mod pipeline;
pub mod uniforms;
pub mod seqs;
pub mod render;
pub mod recorder;
pub mod vertex;
pub mod buffers;
pub mod surface;
pub mod cache;
