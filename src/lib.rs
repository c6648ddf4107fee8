//! Durable-execution harness for an interactive LLM agent loop.
//!
//! The library holds the deterministic core of the harness: replay-safe
//! randomness and clocks, the event buffer, the agent workflow's state
//! machine (turn queue, approval gating, shutdown), the tool approval rules,
//! and the client-side session adapter's decisions. The workflow engine,
//! the model API and the tool registry are driven from outside, through the
//! actions that the state machines return.

pub mod activities;
pub mod adapters;
pub mod entropy;
pub mod json;
pub mod protocol;
pub mod session;
pub mod sink;
pub mod storage;
pub mod text;
pub mod tools;
pub mod types;
pub mod workflow;

pub use activities::{
    HttpFetchInput, HttpFetchOutput, ModelActivityInput, ModelActivityOutput,
    ModelInput, ModelOutput, UsageStats,
};
pub use adapters::entropy::{WorkflowClock, WorkflowRandomSource};
pub use types::{CodexWorkflowInput, CodexWorkflowOutput};
pub use workflow::CodexWorkflow;
