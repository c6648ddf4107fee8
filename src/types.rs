//! The values that cross the workflow's boundary: activity inputs and
//! outputs, signal payloads, and the workflow's own input and result.

use vstd::prelude::*;

use crate::json::{tool_output_body, tool_output_body_text};
use crate::protocol::{
    AskForApproval, FunctionCallOutputPayload, ResponseInputItem, ResponseItem,
    ResponseItemView, WebSearchMode,
};

verus! {

// ---------------------------------------------------------------------------
// Model call activity I/O
// ---------------------------------------------------------------------------

/// Input to the `model_call` activity.
#[derive(Debug, Clone)]
pub struct ModelCallInput {
    /// Stable conversation ID (workflow-scoped) for prompt caching.
    pub conversation_id: String,
    /// Conversation context items sent to the model.
    pub input: Vec<ResponseItem>,
    /// Tool definitions, each an encoded tool spec.
    pub tools: Vec<String>,
    /// Whether parallel tool calls are permitted.
    pub parallel_tool_calls: bool,
    /// Base instructions for the model.
    pub instructions: String,
    /// Model slug.
    pub model: String,
}

/// Output from the `model_call` activity.
#[derive(Debug, Clone)]
pub struct ModelCallOutput {
    /// The response items that the model produced, in order.
    pub items: Vec<ResponseItem>,
}

// ---------------------------------------------------------------------------
// Tool exec activity I/O
// ---------------------------------------------------------------------------

/// Input to the `tool_exec` activity.
#[derive(Debug, Clone)]
pub struct ToolExecInput {
    /// The tool name (e.g. "shell", "container.exec").
    pub tool_name: String,
    /// The call ID from the model.
    pub call_id: String,
    /// The tool arguments as a JSON string.
    pub arguments: String,
    /// Model slug (needed to configure the tool registry).
    pub model: String,
    /// Working directory for tool execution.
    pub cwd: String,
}

/// Output from the `tool_exec` activity.
#[derive(Debug, Clone)]
pub struct ToolExecOutput {
    /// The call this output answers.
    pub call_id: String,
    /// stdout + stderr combined output.
    pub output: String,
    /// Process exit code (0 = success).
    pub exit_code: i32,
}

/// The history item that reports a tool's output to the model.
pub open spec fn tool_output_item(call_id: Seq<char>, output: Seq<char>, exit_code: int) -> ResponseItemView {
    ResponseItemView::FunctionCallOutput {
        call_id,
        body: tool_output_body(output, exit_code),
        success: Some(exit_code == 0),
    }
}

impl ToolExecOutput {
    /// Convert this output into a `ResponseInputItem` for the model.
    pub fn into_response_input_item(self) -> (r: ResponseInputItem)
        ensures
            r@ == tool_output_item(self.call_id@, self.output@, self.exit_code as int),
            r is FunctionCallOutput,
    {
        let body = tool_output_body_text(self.output.as_str(), self.exit_code);
        ResponseInputItem::FunctionCallOutput {
            call_id: self.call_id,
            output: FunctionCallOutputPayload { body, success: Some(self.exit_code == 0) },
        }
    }
}

// ---------------------------------------------------------------------------
// Signal payloads
// ---------------------------------------------------------------------------

/// Signal payload for submitting a new user turn.
#[derive(Debug, Clone)]
pub struct UserTurnInput {
    /// Unique identifier for this turn (used to correlate events).
    pub turn_id: String,
    /// The user's message text.
    pub message: String,
}

/// Signal payload for approving or denying a tool execution.
#[derive(Debug, Clone)]
pub struct ApprovalInput {
    /// The call_id from the ExecApprovalRequest event.
    pub call_id: String,
    /// Whether the tool execution is approved.
    pub approved: bool,
}

/// Pending approval state tracked inside the workflow.
#[derive(Debug, Clone)]
pub struct PendingApproval {
    /// The call_id awaiting approval.
    pub call_id: String,
    /// Set to `Some(true)` or `Some(false)` when the client responds.
    pub decision: Option<bool>,
}

// ---------------------------------------------------------------------------
// Workflow I/O
// ---------------------------------------------------------------------------

/// Input to the codex workflow.
#[derive(Debug, Clone)]
pub struct CodexWorkflowInput {
    /// The user message to process.
    pub user_message: String,
    /// Model to use (e.g. "gpt-4o").
    pub model: String,
    /// Base instructions / system prompt.
    pub instructions: String,
    /// Tool approval policy.
    pub approval_policy: AskForApproval,
    /// Web search mode; `None` means disabled.
    pub web_search_mode: Option<WebSearchMode>,
}

/// Output from the codex workflow.
#[derive(Debug, Clone)]
pub struct CodexWorkflowOutput {
    /// The final assistant message, if any.
    pub last_agent_message: Option<String>,
    /// Number of model→tool loop iterations executed.
    pub iterations: u32,
}

} // verus!
