//! Dynamic rendering pipelines, with a verified execution contract.
//!
//! A [`pipeline::Pipeline`] is a functional stream that consumes geometric data
//! and rasterizes it into a render target: it clears the target once, then runs
//! an ordered sequence of shading commands, each of which binds a shader
//! program and runs an ordered sequence of render commands.
//!
//! The heart of the crate is a backend-independent execution contract: every
//! run of a pipeline is described by a sequence of [`trace::PipelineEvent`]
//! values, computed from the pipeline alone, and the verified run functions
//! guarantee that a backend observes exactly that sequence — clear first, then
//! every shading command in insertion order, with one update-callback
//! invocation per command and no skipping or reordering.
//!
//! GPU-resident resources (render target, shader program, tessellation) are
//! owned elsewhere and only borrowed here; this crate never allocates, frees
//! or interprets them.

pub mod blending;
pub mod framebuffer;
pub mod pipeline;
pub mod recorder;
pub mod shader;
pub mod tessellation;
pub mod texture;
pub mod trace;
