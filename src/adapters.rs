//! Adapters that give the harness's components the workflow engine's
//! deterministic primitives.

pub mod entropy;
