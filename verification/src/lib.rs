//! Orchestration of multi-stage GPU compute shaders over typed host
//! buffers.
//!
//! Given one or more shader stages, a fixed-size input, an optional uniform,
//! an optional scratchpad and a fixed-size output, the library builds the
//! one binding layout every stage shares, uploads the input, dispatches each
//! stage in declared order, and reads the result back through the
//! asynchronous map-and-signal handshake, handing it out only once the
//! device has confirmed completion.
//!
//! The verified heart is in three places:
//!
//! - [`layout`]: the deterministic binding-layout builder. The present
//!   roles always appear in the fixed order [Uniform?, Scratchpad?, Input,
//!   Staging], densely renumbered from zero, and the usage flags of every
//!   buffer role are pinned exactly.
//! - [`protocol`]: the run protocol. The states a run moves through, and
//!   the proof that every run records stage `i`'s dispatch at position `i`,
//!   with the one copy into the host-visible output buffer last.
//! - [`pipeline`]: the device context and the pipeline itself. Construction
//!   establishes the well-formedness invariant (each optional buffer present
//!   exactly when its size says so, the layout matching the presence flags),
//!   and every run returns the pipeline exactly as it found it, so repeated
//!   runs find the same configuration.
//!
//! The GPU backend itself is trusted, not verified: [`backend`] declares the
//! outside types and wraps each call the orchestration needs. Values of
//! those types are opaque here; what is proved is the orchestration around
//! them.

pub mod backend;
pub mod layout;
pub mod pipeline;
pub mod prelude;
pub mod protocol;

pub use crate::pipeline::{GpuCompute, GpuError, Pipeline, StageDesc};
