//! The protocol values that the harness exchanges with its UI and its
//! model: operations, events, review decisions and conversation items.
//!
//! Each type that carries text has a view over `Seq<char>`, and a `copy`
//! method that duplicates a value with the same view.

use vstd::prelude::*;

verus! {

// ---------------------------------------------------------------------------
// Helpers over strings
// ---------------------------------------------------------------------------

/// The texts of a sequence of strings.
pub open spec fn strs(v: Seq<String>) -> Seq<Seq<char>> {
    v.map_values(|s: String| s@)
}

/// The text of an optional string.
pub open spec fn opt_str(o: Option<String>) -> Option<Seq<char>> {
    match o {
        Some(s) => Some(s@),
        None => None,
    }
}

pub fn copy_strings(v: &Vec<String>) -> (r: Vec<String>)
    ensures
        strs(r@) == strs(v@),
{
    let mut r: Vec<String> = Vec::new();
    let mut i: usize = 0;
    while i < v.len()
        invariant
            i <= v@.len(),
            r@.len() == i,
            forall|j: int| 0 <= j < i ==> #[trigger] r@[j]@ == v@[j]@,
        decreases v@.len() - i,
    {
        r.push(v[i].clone());
        i = i + 1;
    }
    assert(strs(r@) =~= strs(v@));
    r
}

pub fn copy_opt_string(o: &Option<String>) -> (r: Option<String>)
    ensures
        opt_str(r) == opt_str(*o),
{
    match o {
        Some(s) => Some(s.clone()),
        None => None,
    }
}

// ---------------------------------------------------------------------------
// Policies and decisions
// ---------------------------------------------------------------------------

/// When a tool execution must be approved by the user first.
#[derive(Debug, Clone, Copy, PartialEq, Eq, Structural)]
pub enum AskForApproval {
    /// Ask unless the command is a known-safe read-only invocation.
    UnlessTrusted,
    /// Always ask.
    OnFailure,
    /// Always ask.
    OnRequest,
    /// Never ask.
    Never,
}

impl Default for AskForApproval {
    fn default() -> (r: Self)
        ensures
            r == AskForApproval::OnRequest,
    {
        AskForApproval::OnRequest
    }
}

/// Whether the model may search the web.
#[derive(Debug, Clone, Copy, PartialEq, Eq, Structural)]
pub enum WebSearchMode {
    Disabled,
    Cached,
    Live,
}

/// The approval policy named by a configuration value: `never`,
/// `untrusted`, `on-failure`; anything else means `OnRequest`.
pub open spec fn policy_named(s: Seq<char>) -> AskForApproval {
    if s == "never"@ {
        AskForApproval::Never
    } else if s == "untrusted"@ {
        AskForApproval::UnlessTrusted
    } else if s == "on-failure"@ {
        AskForApproval::OnFailure
    } else {
        AskForApproval::OnRequest
    }
}

/// The web search mode named by a configuration value: `live`, `cached`;
/// anything else (`disabled` included) means none.
pub open spec fn web_search_named(s: Seq<char>) -> Option<WebSearchMode> {
    if s == "live"@ {
        Some(WebSearchMode::Live)
    } else if s == "cached"@ {
        Some(WebSearchMode::Cached)
    } else {
        None
    }
}

fn is_text(s: &str, lit: &str) -> (r: bool)
    ensures
        r == (s@ == lit@),
{
    String::from_str(s) == String::from_str(lit)
}

/// Reads an approval policy from its configuration value.
pub fn parse_approval_policy(s: &str) -> (r: AskForApproval)
    ensures
        r == policy_named(s@),
{
    if is_text(s, "never") {
        AskForApproval::Never
    } else if is_text(s, "untrusted") {
        AskForApproval::UnlessTrusted
    } else if is_text(s, "on-failure") {
        AskForApproval::OnFailure
    } else {
        AskForApproval::OnRequest
    }
}

/// Reads a web search mode from its configuration value.
pub fn parse_web_search_mode(s: &str) -> (r: Option<WebSearchMode>)
    ensures
        r == web_search_named(s@),
{
    if is_text(s, "live") {
        Some(WebSearchMode::Live)
    } else if is_text(s, "cached") {
        Some(WebSearchMode::Cached)
    } else {
        None
    }
}

/// The user's answer to an approval request.
#[derive(Debug, Clone)]
pub enum ReviewDecision {
    Approved,
    ApprovedExecpolicyAmendment { amendment: Vec<String> },
    ApprovedForSession,
    Denied,
    Abort,
}

/// Whether `d` lets the tool run: every approving variant does.
pub open spec fn is_approval(d: ReviewDecision) -> bool {
    match d {
        ReviewDecision::Approved => true,
        ReviewDecision::ApprovedExecpolicyAmendment { .. } => true,
        ReviewDecision::ApprovedForSession => true,
        ReviewDecision::Denied => false,
        ReviewDecision::Abort => false,
    }
}

/// Collapses a review decision to the boolean sent to the workflow.
pub fn normalize_decision(d: &ReviewDecision) -> (r: bool)
    ensures
        r == is_approval(*d),
{
    match d {
        ReviewDecision::Approved => true,
        ReviewDecision::ApprovedExecpolicyAmendment { .. } => true,
        ReviewDecision::ApprovedForSession => true,
        ReviewDecision::Denied => false,
        ReviewDecision::Abort => false,
    }
}

// ---------------------------------------------------------------------------
// Operations submitted by the UI
// ---------------------------------------------------------------------------

/// One piece of user input.
#[derive(Debug, Clone)]
pub enum UserInput {
    Text { text: String },
    Image { image_url: String },
    LocalImage { path: String },
}

/// An operation submitted by the UI.
#[derive(Debug, Clone)]
pub enum Op {
    UserTurn { items: Vec<UserInput> },
    ExecApproval { id: String, decision: ReviewDecision },
    Shutdown,
    Interrupt,
    /// Any other operation; the harness treats it as a no-op.
    Other,
}

// ---------------------------------------------------------------------------
// Events
// ---------------------------------------------------------------------------

/// The payload of an event.
#[derive(Debug, Clone)]
pub enum EventMsg {
    TurnStarted { turn_id: String },
    TurnComplete { turn_id: String, last_agent_message: Option<String> },
    ExecApprovalRequest { call_id: String, turn_id: String, command: Vec<String>, cwd: String },
    AgentMessage { message: String },
    Warning { message: String },
    ShutdownComplete,
}

/// An event emitted by the workflow.
#[derive(Debug, Clone)]
pub struct Event {
    pub id: String,
    pub msg: EventMsg,
}

pub enum EventMsgView {
    TurnStarted { turn_id: Seq<char> },
    TurnComplete { turn_id: Seq<char>, last_agent_message: Option<Seq<char>> },
    ExecApprovalRequest {
        call_id: Seq<char>,
        turn_id: Seq<char>,
        command: Seq<Seq<char>>,
        cwd: Seq<char>,
    },
    AgentMessage { message: Seq<char> },
    Warning { message: Seq<char> },
    ShutdownComplete,
}

pub struct EventView {
    pub id: Seq<char>,
    pub msg: EventMsgView,
}

impl View for EventMsg {
    type V = EventMsgView;

    open spec fn view(&self) -> EventMsgView {
        match self {
            EventMsg::TurnStarted { turn_id } => EventMsgView::TurnStarted { turn_id: turn_id@ },
            EventMsg::TurnComplete { turn_id, last_agent_message } => EventMsgView::TurnComplete {
                turn_id: turn_id@,
                last_agent_message: opt_str(*last_agent_message),
            },
            EventMsg::ExecApprovalRequest { call_id, turn_id, command, cwd } =>
                EventMsgView::ExecApprovalRequest {
                call_id: call_id@,
                turn_id: turn_id@,
                command: strs(command@),
                cwd: cwd@,
            },
            EventMsg::AgentMessage { message } => EventMsgView::AgentMessage { message: message@ },
            EventMsg::Warning { message } => EventMsgView::Warning { message: message@ },
            EventMsg::ShutdownComplete => EventMsgView::ShutdownComplete,
        }
    }
}

impl View for Event {
    type V = EventView;

    open spec fn view(&self) -> EventView {
        EventView { id: self.id@, msg: self.msg@ }
    }
}

/// The views of a sequence of events.
pub open spec fn events_view(v: Seq<Event>) -> Seq<EventView> {
    v.map_values(|e: Event| e@)
}

impl EventMsg {
    pub fn copy(&self) -> (r: Self)
        ensures
            r@ == self@,
    {
        match self {
            EventMsg::TurnStarted { turn_id } => EventMsg::TurnStarted { turn_id: turn_id.clone() },
            EventMsg::TurnComplete { turn_id, last_agent_message } => EventMsg::TurnComplete {
                turn_id: turn_id.clone(),
                last_agent_message: copy_opt_string(last_agent_message),
            },
            EventMsg::ExecApprovalRequest { call_id, turn_id, command, cwd } =>
                EventMsg::ExecApprovalRequest {
                call_id: call_id.clone(),
                turn_id: turn_id.clone(),
                command: copy_strings(command),
                cwd: cwd.clone(),
            },
            EventMsg::AgentMessage { message } => EventMsg::AgentMessage {
                message: message.clone(),
            },
            EventMsg::Warning { message } => EventMsg::Warning { message: message.clone() },
            EventMsg::ShutdownComplete => EventMsg::ShutdownComplete,
        }
    }
}

impl Event {
    pub fn copy(&self) -> (r: Self)
        ensures
            r@ == self@,
    {
        Event { id: self.id.clone(), msg: self.msg.copy() }
    }
}

// ---------------------------------------------------------------------------
// Conversation items
// ---------------------------------------------------------------------------

/// The result of a function call as fed back to the model.
#[derive(Debug, Clone)]
pub struct FunctionCallOutputPayload {
    /// The output text.
    pub body: String,
    /// Whether the call succeeded, when known.
    pub success: Option<bool>,
}

/// An item that the harness feeds back to the model.
#[derive(Debug, Clone)]
pub enum ResponseInputItem {
    FunctionCallOutput { call_id: String, output: FunctionCallOutputPayload },
    CustomToolCallOutput { call_id: String, output: String },
}

/// One item of the conversation history.
#[derive(Debug, Clone)]
pub enum ResponseItem {
    /// A message with its role (`user`, `assistant`, ...) and text.
    Message { role: String, text: String },
    /// A tool call requested by the model.
    FunctionCall { name: String, call_id: String, arguments: String },
    /// The output of a tool call.
    FunctionCallOutput { call_id: String, output: FunctionCallOutputPayload },
    /// The output of a custom tool call.
    CustomToolCallOutput { call_id: String, output: String },
}

pub enum ResponseItemView {
    Message { role: Seq<char>, text: Seq<char> },
    FunctionCall { name: Seq<char>, call_id: Seq<char>, arguments: Seq<char> },
    FunctionCallOutput { call_id: Seq<char>, body: Seq<char>, success: Option<bool> },
    CustomToolCallOutput { call_id: Seq<char>, output: Seq<char> },
}

impl View for ResponseItem {
    type V = ResponseItemView;

    open spec fn view(&self) -> ResponseItemView {
        match self {
            ResponseItem::Message { role, text } => ResponseItemView::Message {
                role: role@,
                text: text@,
            },
            ResponseItem::FunctionCall { name, call_id, arguments } =>
                ResponseItemView::FunctionCall {
                name: name@,
                call_id: call_id@,
                arguments: arguments@,
            },
            ResponseItem::FunctionCallOutput { call_id, output } =>
                ResponseItemView::FunctionCallOutput {
                call_id: call_id@,
                body: output.body@,
                success: output.success,
            },
            ResponseItem::CustomToolCallOutput { call_id, output } =>
                ResponseItemView::CustomToolCallOutput { call_id: call_id@, output: output@ },
        }
    }
}

impl View for ResponseInputItem {
    type V = ResponseItemView;

    /// The history item that this input becomes.
    open spec fn view(&self) -> ResponseItemView {
        match self {
            ResponseInputItem::FunctionCallOutput { call_id, output } =>
                ResponseItemView::FunctionCallOutput {
                call_id: call_id@,
                body: output.body@,
                success: output.success,
            },
            ResponseInputItem::CustomToolCallOutput { call_id, output } =>
                ResponseItemView::CustomToolCallOutput { call_id: call_id@, output: output@ },
        }
    }
}

/// The views of a sequence of history items.
pub open spec fn items_view(v: Seq<ResponseItem>) -> Seq<ResponseItemView> {
    v.map_values(|i: ResponseItem| i@)
}

impl ResponseItem {
    pub fn copy(&self) -> (r: Self)
        ensures
            r@ == self@,
    {
        match self {
            ResponseItem::Message { role, text } => ResponseItem::Message {
                role: role.clone(),
                text: text.clone(),
            },
            ResponseItem::FunctionCall { name, call_id, arguments } => ResponseItem::FunctionCall {
                name: name.clone(),
                call_id: call_id.clone(),
                arguments: arguments.clone(),
            },
            ResponseItem::FunctionCallOutput { call_id, output } =>
                ResponseItem::FunctionCallOutput {
                call_id: call_id.clone(),
                output: FunctionCallOutputPayload {
                    body: output.body.clone(),
                    success: output.success,
                },
            },
            ResponseItem::CustomToolCallOutput { call_id, output } =>
                ResponseItem::CustomToolCallOutput {
                call_id: call_id.clone(),
                output: output.clone(),
            },
        }
    }
}

impl ResponseInputItem {
    /// The history item recording this input.
    pub fn into_response_item(self) -> (r: ResponseItem)
        ensures
            r@ == self@,
    {
        match self {
            ResponseInputItem::FunctionCallOutput { call_id, output } =>
                ResponseItem::FunctionCallOutput { call_id, output },
            ResponseInputItem::CustomToolCallOutput { call_id, output } =>
                ResponseItem::CustomToolCallOutput { call_id, output },
        }
    }
}

pub fn copy_items(v: &Vec<ResponseItem>) -> (r: Vec<ResponseItem>)
    ensures
        items_view(r@) == items_view(v@),
{
    let mut r: Vec<ResponseItem> = Vec::new();
    let mut i: usize = 0;
    while i < v.len()
        invariant
            i <= v@.len(),
            r@.len() == i,
            forall|j: int| 0 <= j < i ==> #[trigger] r@[j]@ == v@[j]@,
        decreases v@.len() - i,
    {
        r.push(v[i].copy());
        i = i + 1;
    }
    assert(items_view(r@) =~= items_view(v@));
    r
}

} // verus!
