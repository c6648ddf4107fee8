//! The decisions of the two activities that run outside the replay
//! sandbox: how a model API status is retried, how a tool's streams and
//! its registry result become a `ToolExecOutput`.

use vstd::prelude::*;

use crate::protocol::ResponseInputItem;
use crate::types::ToolExecOutput;

verus! {

/// Input of the HTTP fetch demo tool.
#[derive(Debug, Clone)]
pub struct HttpFetchInput {
    /// The URL to fetch.
    pub url: String,
}

/// Output of the HTTP fetch demo tool.
#[derive(Debug, Clone)]
pub struct HttpFetchOutput {
    /// HTTP status code.
    pub status: u16,
    /// Response body (possibly truncated).
    pub body: String,
}

/// A tool made available to the model by the direct model activity.
#[derive(Debug, Clone)]
pub struct ToolDef {
    /// The tool kind (`function`).
    pub tool_type: String,
    pub name: String,
    pub description: String,
    /// The JSON schema of the parameters, encoded.
    pub parameters: String,
}

/// A conversation item sent to the direct model activity.
#[derive(Debug, Clone)]
pub struct InputItem {
    pub role: String,
    pub content: String,
}

/// A tool call requested by the model.
#[derive(Debug, Clone)]
pub struct ToolCallMessage {
    pub id: String,
    pub name: String,
    /// The arguments as a JSON string.
    pub arguments: String,
}

/// Input for the direct model activity.
#[derive(Debug, Clone)]
pub struct ModelInput {
    /// Model to use (e.g., "gpt-4o").
    pub model: String,
    /// Optional system instructions.
    pub instructions: Option<String>,
    /// Conversation history.
    pub input: Vec<InputItem>,
    /// Available tools.
    pub tools: Vec<ToolDef>,
}

/// Output from the direct model activity.
#[derive(Debug, Clone)]
pub struct ModelOutput {
    /// Text content from the model (if any).
    pub content: Option<String>,
    /// Tool calls requested by the model.
    pub tool_calls: Vec<ToolCallMessage>,
}

/// Input for the stub model activity.
#[derive(Debug, Clone)]
pub struct ModelActivityInput {
    /// The prompt to send to the model.
    pub prompt: String,
    /// Model name.
    pub model: String,
    /// Optional system instructions.
    pub system_instructions: Option<String>,
}

/// Output from the stub model activity.
#[derive(Debug, Clone)]
pub struct ModelActivityOutput {
    /// The model's response text.
    pub response: String,
    /// Whether the response includes tool calls.
    pub has_tool_calls: bool,
    /// Usage statistics.
    pub usage: Option<UsageStats>,
}

/// Token usage statistics.
#[derive(Debug, Clone, Copy, PartialEq, Eq, Structural)]
pub struct UsageStats {
    pub prompt_tokens: u32,
    pub completion_tokens: u32,
    pub total_tokens: u32,
}

/// The separator between a tool's stdout and its stderr.
pub const STDERR_SEPARATOR: &'static str = "\n--- stderr ---\n";

/// The prefix of the output reported when the registry fails a call.
pub const DISPATCH_ERROR_PREFIX: &'static str = "tool dispatch error: ";

/// How the engine should treat a failed activity attempt.
#[derive(Debug, Clone, Copy, PartialEq, Eq, Structural)]
pub enum Retry {
    Retryable,
    NonRetryable,
}

/// Whether an HTTP status from the model API is worth retrying: server
/// errors and rate limiting are; other client errors are not.
pub open spec fn status_retry(status: u16) -> Retry {
    if status >= 500 || status == 429 {
        Retry::Retryable
    } else {
        Retry::NonRetryable
    }
}

/// Classifies a failing HTTP status (see `status_retry`).
pub fn classify_status(status: u16) -> (r: Retry)
    ensures
        r == status_retry(status),
{
    if status >= 500 || status == 429 {
        Retry::Retryable
    } else {
        Retry::NonRetryable
    }
}

/// A tool's combined output: stdout, then the separator and stderr when
/// stderr is not empty.
pub open spec fn combined_output(stdout: Seq<char>, stderr: Seq<char>) -> Seq<char> {
    if stderr.len() == 0 {
        stdout
    } else {
        stdout + STDERR_SEPARATOR@ + stderr
    }
}

/// Builds `combined_output(stdout, stderr)`.
pub fn compose_output(stdout: &str, stderr: &str) -> (r: String)
    ensures
        r@ == combined_output(stdout@, stderr@),
{
    let mut s = String::from_str(stdout);
    if !stderr.is_empty() {
        s.append(STDERR_SEPARATOR);
        s.append(stderr);
    }
    s
}

/// The text and exit code that a registry result stands for: a function
/// output's body, with exit code 1 when it reports failure and 0
/// otherwise; a custom tool's output, with exit code 0.
pub open spec fn output_and_code(item: ResponseInputItem) -> (Seq<char>, int) {
    match item {
        ResponseInputItem::FunctionCallOutput { output, .. } => (
            output.body@,
            if output.success == Some(false) {
                1
            } else {
                0
            },
        ),
        ResponseInputItem::CustomToolCallOutput { output, .. } => (output@, 0),
    }
}

/// Extract output text and an exit code from a tool dispatch response.
pub fn extract_tool_output(item: &ResponseInputItem) -> (r: (String, i32))
    ensures
        (r.0@, r.1 as int) == output_and_code(*item),
{
    match item {
        ResponseInputItem::FunctionCallOutput { output, .. } => {
            let success = match output.success {
                Some(b) => b,
                None => true,
            };
            (output.body.clone(), if success {
                0
            } else {
                1
            })
        },
        ResponseInputItem::CustomToolCallOutput { output, .. } => (output.clone(), 0),
    }
}

/// The activity's output for a registry result: the extracted output on
/// success; on a dispatch error, its message with exit code 1.
pub fn tool_exec_result(call_id: String, result: Result<ResponseInputItem, String>) -> (r:
    ToolExecOutput)
    ensures
        r.call_id@ == call_id@,
        match result {
            Ok(item) => (r.output@, r.exit_code as int) == output_and_code(item),
            Err(e) => r.output@ == DISPATCH_ERROR_PREFIX@ + e@ && r.exit_code == 1,
        },
{
    match result {
        Ok(item) => {
            let (output, exit_code) = extract_tool_output(&item);
            ToolExecOutput { call_id, output, exit_code }
        },
        Err(e) => {
            let mut output = String::from_str(DISPATCH_ERROR_PREFIX);
            output.append(e.as_str());
            ToolExecOutput { call_id, output, exit_code: 1 }
        },
    }
}

} // verus!
