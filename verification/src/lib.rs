//! A verified configuration-and-resource-lifecycle layer for an external
//! k-mer-minimizer sequence indexing and alignment engine.
//!
//! The engine itself (index construction, minimizer sketching, chaining,
//! alignment scoring) is an opaque collaborator reached through a C interface;
//! this crate owns everything around it: the preset vocabulary, the
//! configuration records the engine derives, the fluent builder that assembles
//! an aligner, the open/read protocol for a persisted index file, and the
//! guarantee that a native index handle is surfaced for destruction exactly
//! once. The embedding performs the engine calls and feeds their outcomes back
//! into the verified state transitions defined here.

pub mod aligner;
pub mod error;
pub mod laws;
pub mod options;
pub mod preset;
