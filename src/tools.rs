//! The in-workflow tool handler's rules: which calls need the user's
//! approval, what command an approval request shows, and the output that
//! stands in for a denied call.

use vstd::prelude::*;

use crate::protocol::{strs, AskForApproval, ResponseInputItem};
use crate::types::{tool_output_item, ToolExecOutput};

verus! {

/// The output text reported to the model for a denied call.
pub const DENIED_MESSAGE: &'static str = "Tool execution was denied by the user.";

/// The exit code reported for a denied call.
pub const DENIED_EXIT_CODE: i32 = 1;

/// The programs that read but never change anything, whatever their
/// arguments.
pub open spec fn is_read_only_program(p: Seq<char>) -> bool {
    p == "cat"@ || p == "cd"@ || p == "echo"@ || p == "false"@ || p == "grep"@ || p == "head"@
        || p == "ls"@ || p == "nl"@ || p == "pwd"@ || p == "tail"@ || p == "true"@ || p == "wc"@
        || p == "which"@ || p == "whoami"@
}

/// Whether a command vector is a known-safe read-only invocation: a
/// program on the allowlist, run directly. Anything else, including an
/// empty command, is treated as unsafe.
pub open spec fn is_known_safe(command: Seq<Seq<char>>) -> bool {
    command.len() >= 1 && is_read_only_program(command[0])
}

fn equals_str(s: &String, lit: &str) -> (r: bool)
    ensures
        r == (s@ == lit@),
{
    let l = String::from_str(lit);
    *s == l
}

fn is_read_only_program_exec(p: &String) -> (r: bool)
    ensures
        r == is_read_only_program(p@),
{
    equals_str(p, "cat") || equals_str(p, "cd") || equals_str(p, "echo") || equals_str(p, "false")
        || equals_str(p, "grep") || equals_str(p, "head") || equals_str(p, "ls") || equals_str(
        p,
        "nl",
    ) || equals_str(p, "pwd") || equals_str(p, "tail") || equals_str(p, "true") || equals_str(
        p,
        "wc",
    ) || equals_str(p, "which") || equals_str(p, "whoami")
}

/// Classifies a command vector (see `is_known_safe`).
pub fn is_known_safe_command(command: &Vec<String>) -> (r: bool)
    ensures
        r == is_known_safe(strs(command@)),
{
    if command.len() == 0 {
        false
    } else {
        is_read_only_program_exec(&command[0])
    }
}

/// Whether a call with this command must wait for the user's approval.
pub open spec fn approval_required(policy: AskForApproval, command: Seq<Seq<char>>) -> bool {
    match policy {
        AskForApproval::Never => false,
        AskForApproval::UnlessTrusted => !is_known_safe(command),
        AskForApproval::OnRequest => true,
        AskForApproval::OnFailure => true,
    }
}

/// Decides `approval_required`.
pub fn needs_approval(policy: AskForApproval, command: &Vec<String>) -> (r: bool)
    ensures
        r == approval_required(policy, strs(command@)),
{
    match policy {
        AskForApproval::Never => false,
        AskForApproval::UnlessTrusted => !is_known_safe_command(command),
        AskForApproval::OnRequest => true,
        AskForApproval::OnFailure => true,
    }
}

/// The `command` field of a JSON object text, when the text parses as JSON
/// and the field is an array of strings.
pub uninterp spec fn json_command_field(arguments: Seq<char>) -> Option<Seq<Seq<char>>>;

/// Relies on serde_json::from_str to parse the text as a JSON value, and on
/// Value::get, Value::as_array and Value::as_str to read its `command` field
/// as an array of strings; `None` where any of them does not apply.
#[verifier::external_body]
fn parse_command_field(arguments: &str) -> (r: Option<Vec<String>>)
    ensures
        r is None ==> json_command_field(arguments@) is None,
        r matches Some(v) ==> json_command_field(arguments@) == Some(strs(v@)),
{
    let value: serde_json::Value = serde_json::from_str(arguments).ok()?;
    value.get("command")?.as_array()?.iter().map(|v| v.as_str().map(String::from)).collect()
}

/// The command that an approval request shows, given what was parsed from
/// the arguments: the parsed vector, else the raw arguments as one element.
pub open spec fn display_command(parsed: Option<Seq<Seq<char>>>, arguments: Seq<char>) -> Seq<
    Seq<char>,
> {
    match parsed {
        Some(c) => c,
        None => seq![arguments],
    }
}

/// Builds `display_command` from an already parsed `command` field.
pub fn command_or_raw(parsed: Option<Vec<String>>, arguments: &str) -> (r: Vec<String>)
    ensures
        strs(r@) == display_command(
            match parsed {
                Some(v) => Some(strs(v@)),
                None => None,
            },
            arguments@,
        ),
{
    match parsed {
        Some(v) => v,
        None => {
            let mut r: Vec<String> = Vec::new();
            r.push(String::from_str(arguments));
            assert(strs(r@) =~= seq![arguments@]);
            r
        },
    }
}

/// The command vector for an approval request: the `command` array of the
/// JSON arguments when there is one, else the raw arguments.
pub fn approval_command(arguments: &str) -> (r: Vec<String>)
    ensures
        strs(r@) == display_command(json_command_field(arguments@), arguments@),
{
    let parsed = parse_command_field(arguments);
    command_or_raw(parsed, arguments)
}

/// The output that stands in for a call the user denied.
pub fn denied_response(call_id: String) -> (r: ResponseInputItem)
    ensures
        r@ == tool_output_item(call_id@, DENIED_MESSAGE@, DENIED_EXIT_CODE as int),
        r is FunctionCallOutput,
{
    let out = ToolExecOutput {
        call_id,
        output: String::from_str(DENIED_MESSAGE),
        exit_code: DENIED_EXIT_CODE,
    };
    out.into_response_input_item()
}

} // verus!
