//! Loading and stepping of a Gemma text-generation pipeline.
//!
//! The crate holds the decisions of the pipeline: how a raw model
//! configuration becomes a normalized one, which artifacts a load needs and in
//! which order failures are reported, which model variant is built, how one
//! generation step addresses the model, and what is handed to a sampler.
//! The heavy work (downloads, weight loading, tensor kernels, sampling) is
//! done by the caller, who feeds the outcomes back in as plain values.

pub mod config;
pub mod error;
pub mod inputs;
pub mod laws;
pub mod loader;
pub mod paths;
pub mod pipeline;
pub mod sampling;
pub mod template;
pub mod tensor;
pub mod vocab;
