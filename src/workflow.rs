//! The interactive agent workflow, as a deterministic state machine.
//!
//! The workflow queues user turns, runs the model→tool loop for each, gates
//! tool calls on the user's approval, and exits gracefully on shutdown.
//! Everything that needs the engine (waiting, activities) is an action that
//! `step` hands to its driver; the driver performs it and resumes the
//! workflow with what happened. Signals and queries act on the state
//! directly, between steps.

use vstd::prelude::*;

use crate::entropy::{uuid_text, uuid_v4_bytes, xorshift_start, xorshift_step, TemporalRandomSource};
use crate::protocol::{
    copy_items, copy_opt_string, copy_strings, events_view, items_view, opt_str, strs,
    AskForApproval, Event, EventMsg, EventMsgView, EventView, ResponseItem, ResponseItemView,
};
use crate::sink::{events_from, BufferEventSink};
use crate::tools::{
    approval_command, denied_response, display_command, json_command_field, approval_required,
    needs_approval, DENIED_EXIT_CODE, DENIED_MESSAGE,
};
use crate::types::{
    tool_output_item, ApprovalInput, CodexWorkflowInput, CodexWorkflowOutput, ModelCallInput,
    ModelCallOutput, PendingApproval, ToolExecInput, ToolExecOutput, UserTurnInput,
};

verus! {

/// Maximum number of model→tool loop iterations per turn.
pub const MAX_ITERATIONS: u32 = 50;

/// The id of the turn seeded from the workflow input.
pub const FIRST_TURN_ID: &'static str = "turn-0";

/// The working directory of tool executions.
pub const WORKING_DIR: &'static str = "/tmp";

/// The text of the warning emitted when a turn hits `MAX_ITERATIONS`.
pub const MAX_ITERATIONS_WARNING: &'static str = "max iterations reached, stopping turn";

// ---------------------------------------------------------------------------
// Driver interface
// ---------------------------------------------------------------------------

/// Where the run loop stands.
#[derive(Debug, Clone, Copy, PartialEq, Eq, Structural)]
pub enum Phase {
    /// Created; the run has not begun.
    NotStarted,
    /// Between turns, waiting for a user turn or a shutdown request.
    Idle,
    /// Waiting for the model's response.
    AwaitingModel,
    /// Waiting for the user's decision on a tool call.
    AwaitingApproval,
    /// Waiting for a tool execution.
    AwaitingTool,
    /// The run is over.
    Finished,
}

/// What happened since the last action, as reported by the driver.
#[derive(Debug)]
pub enum Resume {
    /// Begin the run with the engine's random seed and the tool catalog.
    Start { random_seed: u64, tools: Vec<String> },
    /// A wait for work ended (a turn was queued or shutdown was requested).
    Woken,
    /// The model answered.
    ModelResponded(ModelCallOutput),
    /// The model call failed without retries left.
    ModelFailed,
    /// The pending approval has a decision.
    ApprovalReady,
    /// The tool ran.
    ToolFinished(ToolExecOutput),
    /// The tool execution failed without retries left.
    ToolFailed,
}

/// What the driver must do next.
#[derive(Debug)]
pub enum WorkflowAction {
    /// Wait until `wake_ready`, then resume with `Woken`.
    WaitForWork,
    /// Call the model, then resume with `ModelResponded` or `ModelFailed`.
    CallModel(ModelCallInput),
    /// Wait until `approval_ready`, then resume with `ApprovalReady`.
    WaitForApproval,
    /// Run the tool, then resume with `ToolFinished` or `ToolFailed`.
    ExecuteTool(ToolExecInput),
    /// The run is over with this result.
    Finish(CodexWorkflowOutput),
}

pub enum ResumeView {
    Start { random_seed: u64, tools: Seq<Seq<char>> },
    Woken,
    ModelResponded { items: Seq<ResponseItemView> },
    ModelFailed,
    ApprovalReady,
    ToolFinished { call_id: Seq<char>, output: Seq<char>, exit_code: int },
    ToolFailed,
}

pub enum ActionView {
    WaitForWork,
    CallModel {
        conversation_id: Seq<char>,
        input: Seq<ResponseItemView>,
        tools: Seq<Seq<char>>,
        parallel_tool_calls: bool,
        instructions: Seq<char>,
        model: Seq<char>,
    },
    WaitForApproval,
    ExecuteTool {
        tool_name: Seq<char>,
        call_id: Seq<char>,
        arguments: Seq<char>,
        model: Seq<char>,
        cwd: Seq<char>,
    },
    Finish { last_agent_message: Option<Seq<char>>, iterations: int },
}

impl View for Resume {
    type V = ResumeView;

    open spec fn view(&self) -> ResumeView {
        match self {
            Resume::Start { random_seed, tools } => ResumeView::Start {
                random_seed: *random_seed,
                tools: strs(tools@),
            },
            Resume::Woken => ResumeView::Woken,
            Resume::ModelResponded(out) => ResumeView::ModelResponded {
                items: items_view(out.items@),
            },
            Resume::ModelFailed => ResumeView::ModelFailed,
            Resume::ApprovalReady => ResumeView::ApprovalReady,
            Resume::ToolFinished(out) => ResumeView::ToolFinished {
                call_id: out.call_id@,
                output: out.output@,
                exit_code: out.exit_code as int,
            },
            Resume::ToolFailed => ResumeView::ToolFailed,
        }
    }
}

impl View for WorkflowAction {
    type V = ActionView;

    open spec fn view(&self) -> ActionView {
        match self {
            WorkflowAction::WaitForWork => ActionView::WaitForWork,
            WorkflowAction::CallModel(m) => ActionView::CallModel {
                conversation_id: m.conversation_id@,
                input: items_view(m.input@),
                tools: strs(m.tools@),
                parallel_tool_calls: m.parallel_tool_calls,
                instructions: m.instructions@,
                model: m.model@,
            },
            WorkflowAction::WaitForApproval => ActionView::WaitForApproval,
            WorkflowAction::ExecuteTool(t) => ActionView::ExecuteTool {
                tool_name: t.tool_name@,
                call_id: t.call_id@,
                arguments: t.arguments@,
                model: t.model@,
                cwd: t.cwd@,
            },
            WorkflowAction::Finish(o) => ActionView::Finish {
                last_agent_message: opt_str(o.last_agent_message),
                iterations: o.iterations as int,
            },
        }
    }
}

// ---------------------------------------------------------------------------
// The model of the workflow state
// ---------------------------------------------------------------------------

/// The workflow state: turns are `(turn_id, message)`, a pending approval is
/// `(call_id, decision)`, and `submitted` lists every turn id ever queued.
pub struct WorkflowView {
    pub policy: AskForApproval,
    pub model: Seq<char>,
    pub instructions: Seq<char>,
    pub events: Seq<EventView>,
    pub user_turns: Seq<(Seq<char>, Seq<char>)>,
    pub pending_approval: Option<(Seq<char>, Option<bool>)>,
    pub shutdown_requested: bool,
    pub history: Seq<ResponseItemView>,
    pub tools: Seq<Seq<char>>,
    pub conversation_id: Seq<char>,
    pub phase: Phase,
    pub turn_id: Seq<char>,
    pub calls: Seq<ResponseItemView>,
    pub next_call: int,
    pub turn_iterations: int,
    pub total_iterations: int,
    pub last_agent_message: Option<Seq<char>>,
    pub submitted: Seq<Seq<char>>,
}

pub open spec fn turns_view(v: Seq<UserTurnInput>) -> Seq<(Seq<char>, Seq<char>)> {
    v.map_values(|t: UserTurnInput| (t.turn_id@, t.message@))
}

pub open spec fn pending_view(p: Option<PendingApproval>) -> Option<(Seq<char>, Option<bool>)> {
    match p {
        Some(pa) => Some((pa.call_id@, pa.decision)),
        None => None,
    }
}

/// The ids of the `TurnStarted` events, in order.
pub open spec fn started_turn_ids(events: Seq<EventView>) -> Seq<Seq<char>>
    decreases events.len(),
{
    if events.len() == 0 {
        Seq::empty()
    } else {
        let rest = started_turn_ids(events.drop_last());
        match events.last().msg {
            EventMsgView::TurnStarted { turn_id } => rest.push(turn_id),
            _ => rest,
        }
    }
}

/// The ids of queued turns, in order.
pub open spec fn queued_turn_ids(turns: Seq<(Seq<char>, Seq<char>)>) -> Seq<Seq<char>> {
    turns.map_values(|t: (Seq<char>, Seq<char>)| t.0)
}

/// The tool calls among `items`, in order.
pub open spec fn function_calls(items: Seq<ResponseItemView>) -> Seq<ResponseItemView>
    decreases items.len(),
{
    if items.len() == 0 {
        Seq::empty()
    } else {
        let rest = function_calls(items.drop_last());
        if items.last() is FunctionCall {
            rest.push(items.last())
        } else {
            rest
        }
    }
}

/// The text of the last assistant message among `items`.
pub open spec fn last_assistant_text(items: Seq<ResponseItemView>) -> Option<Seq<char>>
    decreases items.len(),
{
    if items.len() == 0 {
        None
    } else {
        match items.last() {
            ResponseItemView::Message { role, text } => if role == "assistant"@ {
                Some(text)
            } else {
                last_assistant_text(items.drop_last())
            },
            _ => last_assistant_text(items.drop_last()),
        }
    }
}

/// An `AgentMessage` event for each assistant message among `items`.
pub open spec fn agent_message_events(turn_id: Seq<char>, items: Seq<ResponseItemView>) -> Seq<
    EventView,
>
    decreases items.len(),
{
    if items.len() == 0 {
        Seq::empty()
    } else {
        let rest = agent_message_events(turn_id, items.drop_last());
        match items.last() {
            ResponseItemView::Message { role, text } => if role == "assistant"@ {
                rest.push(EventView { id: turn_id, msg: EventMsgView::AgentMessage { message: text } })
            } else {
                rest
            },
            _ => rest,
        }
    }
}

/// The part of the invariant that holds at every point of a transition.
pub open spec fn workflow_core(v: WorkflowView) -> bool {
    &&& started_turn_ids(v.events) + queued_turn_ids(v.user_turns) == v.submitted
    &&& forall|i: int| 0 <= i < v.calls.len() ==> (#[trigger] v.calls[i]) is FunctionCall
    &&& 0 <= v.turn_iterations <= MAX_ITERATIONS
    &&& 0 <= v.total_iterations <= u32::MAX
}

/// The workflow's invariant: turns start in submission order, an approval
/// is pending exactly while the loop waits for it, and a tool call is in
/// hand while the loop waits for its approval or its execution.
pub open spec fn workflow_inv(v: WorkflowView) -> bool {
    &&& workflow_core(v)
    &&& v.phase == Phase::AwaitingModel ==> v.turn_iterations < MAX_ITERATIONS
    &&& (v.pending_approval is Some <==> v.phase == Phase::AwaitingApproval)
    &&& (v.phase == Phase::AwaitingApproval || v.phase == Phase::AwaitingTool) ==> 0 <= v.next_call
        < v.calls.len()
}

/// The conversation id drawn from the run's random seed.
pub open spec fn conversation_id_for(seed: u64) -> Seq<char> {
    let a = xorshift_step(xorshift_start(seed));
    uuid_text(uuid_v4_bytes(a, xorshift_step(a)))
}

/// The decision on a pending approval after the signal `(call_id, approved)`:
/// recorded when it answers the pending call, dropped otherwise.
pub open spec fn apply_approval(
    pending: Option<(Seq<char>, Option<bool>)>,
    call_id: Seq<char>,
    approved: bool,
) -> Option<(Seq<char>, Option<bool>)> {
    match pending {
        Some(p) => if p.0 == call_id {
            Some((p.0, Some(approved)))
        } else {
            pending
        },
        None => None,
    }
}

pub open spec fn prompt_action(v: WorkflowView) -> ActionView {
    ActionView::CallModel {
        conversation_id: v.conversation_id,
        input: v.history,
        tools: v.tools,
        parallel_tool_calls: false,
        instructions: v.instructions,
        model: v.model,
    }
}

pub open spec fn exec_action(v: WorkflowView, call: ResponseItemView) -> ActionView {
    match call {
        ResponseItemView::FunctionCall { name, call_id, arguments } => ActionView::ExecuteTool {
            tool_name: name,
            call_id,
            arguments,
            model: v.model,
            cwd: WORKING_DIR@,
        },
        _ => ActionView::WaitForWork,
    }
}

/// Emits `ShutdownComplete` and ends the run.
pub open spec fn finish_spec(v: WorkflowView) -> (WorkflowView, ActionView) {
    (
        WorkflowView {
            events: v.events.push(EventView { id: Seq::empty(), msg: EventMsgView::ShutdownComplete }),
            phase: Phase::Finished,
            ..v
        },
        ActionView::Finish {
            last_agent_message: v.last_agent_message,
            iterations: v.total_iterations,
        },
    )
}

/// Dequeues the head turn, emits `TurnStarted`, records the user message.
pub open spec fn start_turn_spec(v: WorkflowView) -> WorkflowView {
    let t = v.user_turns[0];
    WorkflowView {
        user_turns: v.user_turns.drop_first(),
        events: v.events.push(
            EventView { id: t.0, msg: EventMsgView::TurnStarted { turn_id: t.0 } },
        ),
        history: v.history.push(ResponseItemView::Message { role: "user"@, text: t.1 }),
        turn_id: t.0,
        turn_iterations: 0,
        calls: Seq::empty(),
        next_call: 0,
        phase: Phase::AwaitingModel,
        ..v
    }
}

/// Between turns: start the next queued turn, exit on shutdown, or wait.
pub open spec fn idle_spec(v: WorkflowView) -> (WorkflowView, ActionView) {
    if v.user_turns.len() > 0 {
        let v2 = start_turn_spec(v);
        (v2, prompt_action(v2))
    } else if v.shutdown_requested {
        finish_spec(v)
    } else {
        (WorkflowView { phase: Phase::Idle, ..v }, ActionView::WaitForWork)
    }
}

/// Emits `TurnComplete`, then exits on shutdown or goes back to idle.
pub open spec fn complete_turn_spec(v: WorkflowView) -> (WorkflowView, ActionView) {
    let v2 = WorkflowView {
        events: v.events.push(
            EventView {
                id: v.turn_id,
                msg: EventMsgView::TurnComplete {
                    turn_id: v.turn_id,
                    last_agent_message: v.last_agent_message,
                },
            },
        ),
        ..v
    };
    if v2.shutdown_requested {
        finish_spec(v2)
    } else {
        idle_spec(v2)
    }
}

/// The top of the inner loop: call the model, unless the turn has used up
/// its iterations (then warn and complete the turn).
pub open spec fn iterate_spec(v: WorkflowView) -> (WorkflowView, ActionView) {
    if v.turn_iterations >= MAX_ITERATIONS {
        complete_turn_spec(
            WorkflowView {
                events: v.events.push(
                    EventView {
                        id: v.turn_id,
                        msg: EventMsgView::Warning { message: MAX_ITERATIONS_WARNING@ },
                    },
                ),
                ..v
            },
        )
    } else {
        (WorkflowView { phase: Phase::AwaitingModel, ..v }, prompt_action(v))
    }
}

/// Handles the tool call at `next_call`: ask for approval, or run it.
pub open spec fn handle_call_spec(v: WorkflowView) -> (WorkflowView, ActionView) {
    let c = v.calls[v.next_call];
    match c {
        ResponseItemView::FunctionCall { name, call_id, arguments } => {
            let command = display_command(json_command_field(arguments), arguments);
            if approval_required(v.policy, command) {
                (
                    WorkflowView {
                        pending_approval: Some((call_id, None)),
                        events: v.events.push(
                            EventView {
                                id: v.turn_id,
                                msg: EventMsgView::ExecApprovalRequest {
                                    call_id,
                                    turn_id: v.turn_id,
                                    command,
                                    cwd: WORKING_DIR@,
                                },
                            },
                        ),
                        phase: Phase::AwaitingApproval,
                        ..v
                    },
                    ActionView::WaitForApproval,
                )
            } else {
                (WorkflowView { phase: Phase::AwaitingTool, ..v }, exec_action(v, c))
            }
        },
        _ => (v, ActionView::WaitForWork),
    }
}

/// After a call's output is recorded: the next call, or the next iteration.
pub open spec fn next_call_spec(v: WorkflowView) -> (WorkflowView, ActionView) {
    let v2 = WorkflowView { next_call: v.next_call + 1, ..v };
    if v2.next_call < v2.calls.len() {
        handle_call_spec(v2)
    } else {
        iterate_spec(v2)
    }
}

/// Records the model's items, then handles its tool calls or, when there
/// are none, completes the turn.
pub open spec fn model_responded_spec(v: WorkflowView, items: Seq<ResponseItemView>) -> (
    WorkflowView,
    ActionView,
) {
    let calls = function_calls(items);
    let v2 = WorkflowView {
        history: v.history + items,
        events: v.events + agent_message_events(v.turn_id, items),
        turn_iterations: v.turn_iterations + 1,
        total_iterations: v.total_iterations + 1,
        last_agent_message: match last_assistant_text(items) {
            Some(t) => Some(t),
            None => v.last_agent_message,
        },
        calls,
        next_call: 0,
        ..v
    };
    if calls.len() == 0 {
        complete_turn_spec(v2)
    } else {
        handle_call_spec(v2)
    }
}

/// Reads and clears the decision, then runs the call or records a denial.
pub open spec fn approval_ready_spec(v: WorkflowView) -> (WorkflowView, ActionView) {
    let approved = match v.pending_approval {
        Some(p) => match p.1 {
            Some(d) => d,
            None => false,
        },
        None => false,
    };
    let v2 = WorkflowView { pending_approval: None, ..v };
    let c = v.calls[v.next_call];
    if approved {
        (WorkflowView { phase: Phase::AwaitingTool, ..v2 }, exec_action(v2, c))
    } else {
        match c {
            ResponseItemView::FunctionCall { call_id, .. } => next_call_spec(
                WorkflowView {
                    history: v2.history.push(
                        tool_output_item(call_id, DENIED_MESSAGE@, DENIED_EXIT_CODE as int),
                    ),
                    ..v2
                },
            ),
            _ => (v2, ActionView::WaitForWork),
        }
    }
}

/// The transition of `step`.
pub open spec fn step_spec(v: WorkflowView, r: ResumeView) -> (WorkflowView, ActionView) {
    match r {
        ResumeView::Start { random_seed, tools } => idle_spec(
            WorkflowView { conversation_id: conversation_id_for(random_seed), tools, ..v },
        ),
        ResumeView::Woken => idle_spec(v),
        ResumeView::ModelResponded { items } => model_responded_spec(v, items),
        ResumeView::ModelFailed => complete_turn_spec(
            WorkflowView {
                turn_iterations: v.turn_iterations + 1,
                total_iterations: v.total_iterations + 1,
                ..v
            },
        ),
        ResumeView::ApprovalReady => approval_ready_spec(v),
        ResumeView::ToolFinished { call_id, output, exit_code } => next_call_spec(
            WorkflowView { history: v.history.push(tool_output_item(call_id, output, exit_code)), ..v },
        ),
        ResumeView::ToolFailed => complete_turn_spec(v),
    }
}

/// Whether `step` may be resumed with `r` in state `v`.
pub open spec fn accepts_spec(v: WorkflowView, r: ResumeView) -> bool {
    match r {
        ResumeView::Start { .. } => v.phase == Phase::NotStarted,
        ResumeView::Woken => v.phase == Phase::Idle,
        ResumeView::ModelResponded { .. } => v.phase == Phase::AwaitingModel && v.total_iterations
            < u32::MAX,
        ResumeView::ModelFailed => v.phase == Phase::AwaitingModel && v.total_iterations
            < u32::MAX,
        ResumeView::ApprovalReady => v.phase == Phase::AwaitingApproval,
        ResumeView::ToolFinished { .. } => v.phase == Phase::AwaitingTool,
        ResumeView::ToolFailed => v.phase == Phase::AwaitingTool,
    }
}

// ---------------------------------------------------------------------------
// The workflow
// ---------------------------------------------------------------------------

/// The long-lived interactive agent workflow.
pub struct CodexWorkflow {
    input: CodexWorkflowInput,
    events: BufferEventSink,
    user_turns: Vec<UserTurnInput>,
    pending_approval: Option<PendingApproval>,
    shutdown_requested: bool,
    history: Vec<ResponseItem>,
    tools: Vec<String>,
    conversation_id: String,
    phase: Phase,
    turn_id: String,
    calls: Vec<ResponseItem>,
    next_call: usize,
    turn_iterations: u32,
    total_iterations: u32,
    last_agent_message: Option<String>,
    submitted: Ghost<Seq<Seq<char>>>,
}

impl View for CodexWorkflow {
    type V = WorkflowView;

    closed spec fn view(&self) -> WorkflowView {
        WorkflowView {
            policy: self.input.approval_policy,
            model: self.input.model@,
            instructions: self.input.instructions@,
            events: self.events@,
            user_turns: turns_view(self.user_turns@),
            pending_approval: pending_view(self.pending_approval),
            shutdown_requested: self.shutdown_requested,
            history: items_view(self.history@),
            tools: strs(self.tools@),
            conversation_id: self.conversation_id@,
            phase: self.phase,
            turn_id: self.turn_id@,
            calls: items_view(self.calls@),
            next_call: self.next_call as int,
            turn_iterations: self.turn_iterations as int,
            total_iterations: self.total_iterations as int,
            last_agent_message: opt_str(self.last_agent_message),
            submitted: self.submitted@,
        }
    }
}

proof fn lemma_started_push(events: Seq<EventView>, e: EventView)
    ensures
        started_turn_ids(events.push(e)) == match e.msg {
            EventMsgView::TurnStarted { turn_id } => started_turn_ids(events).push(turn_id),
            _ => started_turn_ids(events),
        },
{
    assert(events.push(e).drop_last() =~= events);
}

proof fn lemma_started_concat_no_turns(events: Seq<EventView>, more: Seq<EventView>)
    requires
        forall|i: int| 0 <= i < more.len() ==> !((#[trigger] more[i]).msg is TurnStarted),
    ensures
        started_turn_ids(events + more) == started_turn_ids(events),
    decreases more.len(),
{
    if more.len() > 0 {
        lemma_started_concat_no_turns(events, more.drop_last());
        assert((events + more).drop_last() =~= events + more.drop_last());
        assert(more[more.len() - 1] == more.last());
    } else {
        assert(events + more =~= events);
    }
}

proof fn lemma_agent_messages_not_turns(turn_id: Seq<char>, items: Seq<ResponseItemView>)
    ensures
        forall|i: int|
            0 <= i < agent_message_events(turn_id, items).len() ==> (#[trigger] agent_message_events(
                turn_id,
                items,
            )[i]).msg is AgentMessage,
    decreases items.len(),
{
    if items.len() > 0 {
        lemma_agent_messages_not_turns(turn_id, items.drop_last());
    }
}

impl CodexWorkflow {
    /// The workflow's invariant.
    pub open spec fn wf(&self) -> bool {
        workflow_inv(self@)
    }

    /// The invariant that holds inside a transition.
    pub open spec fn step_inv(&self) -> bool {
        workflow_core(self@)
    }

    /// Create the workflow; a non-empty `user_message` is queued as the
    /// first turn, `turn-0`.
    pub fn new(input: CodexWorkflowInput) -> (r: Self)
        ensures
            r.wf(),
            r@.phase == Phase::NotStarted,
            r@.policy == input.approval_policy,
            r@.model == input.model@,
            r@.instructions == input.instructions@,
            r@.events == Seq::<EventView>::empty(),
            r@.user_turns == (if input.user_message@.len() == 0 {
                Seq::<(Seq<char>, Seq<char>)>::empty()
            } else {
                seq![(FIRST_TURN_ID@, input.user_message@)]
            }),
            r@.pending_approval is None,
            !r@.shutdown_requested,
            r@.history == Seq::<ResponseItemView>::empty(),
            r@.turn_iterations == 0,
            r@.total_iterations == 0,
            r@.last_agent_message is None,
    {
        let mut user_turns: Vec<UserTurnInput> = Vec::new();
        if !input.user_message.as_str().is_empty() {
            user_turns.push(
                UserTurnInput {
                    turn_id: String::from_str(FIRST_TURN_ID),
                    message: input.user_message.clone(),
                },
            );
        }
        let ghost submitted = queued_turn_ids(turns_view(user_turns@));
        let r = CodexWorkflow {
            input,
            events: BufferEventSink::new(),
            user_turns,
            pending_approval: None,
            shutdown_requested: false,
            history: Vec::new(),
            tools: Vec::new(),
            conversation_id: String::new(),
            phase: Phase::NotStarted,
            turn_id: String::new(),
            calls: Vec::new(),
            next_call: 0,
            turn_iterations: 0,
            total_iterations: 0,
            last_agent_message: None,
            submitted: Ghost(submitted),
        };
        assert(started_turn_ids(r@.events) =~= Seq::<Seq<char>>::empty());
        assert(started_turn_ids(r@.events) + queued_turn_ids(r@.user_turns) =~= r@.submitted);
        assert(r@.history =~= Seq::<ResponseItemView>::empty());
        assert(r@.user_turns =~= (if r.input.user_message@.len() == 0 {
            Seq::<(Seq<char>, Seq<char>)>::empty()
        } else {
            seq![(FIRST_TURN_ID@, r.input.user_message@)]
        }));
        r
    }

    // ----- signals -----

    /// Queue a new user turn for processing.
    pub fn receive_user_turn(&mut self, input: UserTurnInput)
        requires
            old(self).wf(),
        ensures
            final(self).wf(),
            final(self)@ == (WorkflowView {
                user_turns: old(self)@.user_turns.push((input.turn_id@, input.message@)),
                submitted: old(self)@.submitted.push(input.turn_id@),
                ..old(self)@
            }),
    {
        let ghost id = input.turn_id@;
        self.user_turns.push(input);
        self.submitted = Ghost(self.submitted@.push(id));
        assert(turns_view(self.user_turns@) =~= turns_view(old(self).user_turns@).push(
            (input.turn_id@, input.message@),
        ));
        assert(queued_turn_ids(self@.user_turns) =~= queued_turn_ids(old(self)@.user_turns).push(
            id,
        ));
        assert(started_turn_ids(self@.events) + queued_turn_ids(self@.user_turns) =~= self@.submitted);
    }

    /// Resolve a pending tool-call approval; a signal for another call is
    /// dropped.
    pub fn receive_approval(&mut self, input: ApprovalInput)
        requires
            old(self).wf(),
        ensures
            final(self).wf(),
            final(self)@ == (WorkflowView {
                pending_approval: apply_approval(
                    old(self)@.pending_approval,
                    input.call_id@,
                    input.approved,
                ),
                ..old(self)@
            }),
    {
        let mut matched = false;
        if let Some(pa) = &self.pending_approval {
            matched = pa.call_id == input.call_id;
        }
        if matched {
            self.pending_approval = Some(
                PendingApproval { call_id: input.call_id, decision: Some(input.approved) },
            );
        }
    }

    /// Request graceful shutdown after the current turn finishes.
    pub fn request_shutdown(&mut self)
        requires
            old(self).wf(),
        ensures
            final(self).wf(),
            final(self)@ == (WorkflowView { shutdown_requested: true, ..old(self)@ }),
    {
        self.shutdown_requested = true;
    }

    // ----- queries -----

    /// The events from `from_index` on, plus the watermark (the number of
    /// events so far).
    pub fn get_events_since(&self, from_index: usize) -> (r: (Vec<Event>, usize))
        ensures
            events_view(r.0@) == events_from(self@.events, from_index as int),
            r.1 == self@.events.len(),
    {
        self.events.events_since(from_index)
    }

    /// All events so far.
    pub fn get_events(&self) -> (r: Vec<Event>)
        ensures
            events_view(r@) == self@.events,
    {
        let (r, _) = self.events.events_since(0);
        proof {
            crate::sink::lemma_events_since_bounds(self@.events, self@.events.len() as int);
        }
        r
    }

    /// The run loop's phase.
    pub fn phase(&self) -> (r: Phase)
        ensures
            r == self@.phase,
    {
        self.phase
    }

    /// The condition that ends a wait for work.
    pub fn wake_ready(&self) -> (r: bool)
        ensures
            r == (self@.user_turns.len() > 0 || self@.shutdown_requested),
    {
        self.user_turns.len() > 0 || self.shutdown_requested
    }

    /// The condition that ends a wait for approval: the decision is in, or
    /// nothing is pending.
    pub fn approval_ready(&self) -> (r: bool)
        ensures
            r == match self@.pending_approval {
                Some(p) => p.1 is Some,
                None => true,
            },
    {
        match &self.pending_approval {
            Some(p) => p.decision.is_some(),
            None => true,
        }
    }

    /// Whether `step` may be resumed with `resume` now.
    pub fn accepts(&self, resume: &Resume) -> (r: bool)
        ensures
            r == accepts_spec(self@, resume@),
    {
        match resume {
            Resume::Start { .. } => self.phase == Phase::NotStarted,
            Resume::Woken => self.phase == Phase::Idle,
            Resume::ModelResponded(_) => self.phase == Phase::AwaitingModel
                && self.total_iterations < u32::MAX,
            Resume::ModelFailed => self.phase == Phase::AwaitingModel && self.total_iterations
                < u32::MAX,
            Resume::ApprovalReady => self.phase == Phase::AwaitingApproval,
            Resume::ToolFinished(_) => self.phase == Phase::AwaitingTool,
            Resume::ToolFailed => self.phase == Phase::AwaitingTool,
        }
    }

    // ----- transitions -----

    fn emit(&mut self, event: Event)
        requires
            old(self).step_inv(),
            !(event@.msg is TurnStarted),
        ensures
            final(self).step_inv(),
            final(self)@ == (WorkflowView { events: old(self)@.events.push(event@), ..old(self)@ }),
    {
        proof {
            lemma_started_push(self@.events, event@);
        }
        self.events.emit_event_sync(event);
    }

    fn finish(&mut self) -> (r: WorkflowAction)
        requires
            old(self).step_inv(),
            old(self)@.pending_approval is None,
        ensures
            final(self).wf(),
            (final(self)@, r@) == finish_spec(old(self)@),
    {
        self.emit(Event { id: String::new(), msg: EventMsg::ShutdownComplete });
        self.phase = Phase::Finished;
        assert(self@.events =~= finish_spec(old(self)@).0.events);
        WorkflowAction::Finish(
            CodexWorkflowOutput {
                last_agent_message: copy_opt_string(&self.last_agent_message),
                iterations: self.total_iterations,
            },
        )
    }

    fn prompt(&self) -> (r: WorkflowAction)
        ensures
            r@ == prompt_action(self@),
    {
        WorkflowAction::CallModel(
            ModelCallInput {
                conversation_id: self.conversation_id.clone(),
                input: copy_items(&self.history),
                tools: copy_strings(&self.tools),
                parallel_tool_calls: false,
                instructions: self.input.instructions.clone(),
                model: self.input.model.clone(),
            },
        )
    }

    fn idle(&mut self) -> (r: WorkflowAction)
        requires
            old(self).step_inv(),
            old(self)@.pending_approval is None,
        ensures
            final(self).wf(),
            (final(self)@, r@) == idle_spec(old(self)@),
    {
        if self.user_turns.len() > 0 {
            let turn = self.user_turns.remove(0);
            let ghost v = old(self)@;
            proof {
                lemma_started_push(
                    v.events,
                    EventView { id: turn.turn_id@, msg: EventMsgView::TurnStarted { turn_id: turn.turn_id@ } },
                );
                assert(turns_view(self.user_turns@) =~= v.user_turns.drop_first());
                assert(queued_turn_ids(v.user_turns) =~= seq![turn.turn_id@] + queued_turn_ids(
                    v.user_turns.drop_first(),
                ));
            }
            self.events.emit_event_sync(
                Event {
                    id: turn.turn_id.clone(),
                    msg: EventMsg::TurnStarted { turn_id: turn.turn_id.clone() },
                },
            );
            self.history.push(
                ResponseItem::Message { role: String::from_str("user"), text: turn.message },
            );
            self.turn_id = turn.turn_id;
            self.turn_iterations = 0;
            self.calls = Vec::new();
            self.next_call = 0;
            self.phase = Phase::AwaitingModel;
            proof {
                let s = start_turn_spec(v);
                assert(self@.history =~= s.history);
                assert(self@.calls =~= s.calls);
                assert(self@.user_turns =~= s.user_turns);
                assert(started_turn_ids(self@.events) + queued_turn_ids(self@.user_turns)
                    =~= self@.submitted);
                assert(self@ == s);
            }
            self.prompt()
        } else if self.shutdown_requested {
            self.finish()
        } else {
            self.phase = Phase::Idle;
            WorkflowAction::WaitForWork
        }
    }

    fn complete_turn(&mut self) -> (r: WorkflowAction)
        requires
            old(self).step_inv(),
            old(self)@.pending_approval is None,
        ensures
            final(self).wf(),
            (final(self)@, r@) == complete_turn_spec(old(self)@),
    {
        self.emit(
            Event {
                id: self.turn_id.clone(),
                msg: EventMsg::TurnComplete {
                    turn_id: self.turn_id.clone(),
                    last_agent_message: copy_opt_string(&self.last_agent_message),
                },
            },
        );
        if self.shutdown_requested {
            self.finish()
        } else {
            self.idle()
        }
    }

    fn iterate(&mut self) -> (r: WorkflowAction)
        requires
            old(self).step_inv(),
            old(self)@.pending_approval is None,
        ensures
            final(self).wf(),
            (final(self)@, r@) == iterate_spec(old(self)@),
    {
        if self.turn_iterations >= MAX_ITERATIONS {
            self.emit(
                Event {
                    id: self.turn_id.clone(),
                    msg: EventMsg::Warning { message: String::from_str(MAX_ITERATIONS_WARNING) },
                },
            );
            self.complete_turn()
        } else {
            let r = self.prompt();
            self.phase = Phase::AwaitingModel;
            r
        }
    }

    fn exec_input(&self, name: &String, call_id: &String, arguments: &String) -> (r: WorkflowAction)
        ensures
            r@ == exec_action(
                self@,
                ResponseItemView::FunctionCall { name: name@, call_id: call_id@, arguments: arguments@ },
            ),
    {
        WorkflowAction::ExecuteTool(
            ToolExecInput {
                tool_name: name.clone(),
                call_id: call_id.clone(),
                arguments: arguments.clone(),
                model: self.input.model.clone(),
                cwd: String::from_str(WORKING_DIR),
            },
        )
    }

    fn handle_call(&mut self) -> (r: WorkflowAction)
        requires
            old(self).step_inv(),
            old(self)@.pending_approval is None,
            0 <= old(self)@.next_call < old(self)@.calls.len(),
        ensures
            final(self).wf(),
            (final(self)@, r@) == handle_call_spec(old(self)@),
    {
        let i = self.next_call;
        assert(self@.calls[i as int] == self.calls@[i as int]@);
        assert(self@.calls[i as int] is FunctionCall);
        match &self.calls[i] {
            ResponseItem::FunctionCall { name, call_id, arguments } => {
                let name = name.clone();
                let call_id = call_id.clone();
                let arguments = arguments.clone();
                let command = approval_command(arguments.as_str());
                if needs_approval(self.input.approval_policy, &command) {
                    self.pending_approval = Some(
                        PendingApproval { call_id: call_id.clone(), decision: None },
                    );
                    self.phase = Phase::AwaitingApproval;
                    let ev = Event {
                        id: self.turn_id.clone(),
                        msg: EventMsg::ExecApprovalRequest {
                            call_id,
                            turn_id: self.turn_id.clone(),
                            command,
                            cwd: String::from_str(WORKING_DIR),
                        },
                    };
                    self.emit(ev);
                    WorkflowAction::WaitForApproval
                } else {
                    self.phase = Phase::AwaitingTool;
                    self.exec_input(&name, &call_id, &arguments)
                }
            },
            _ => {
                assert(false);
                WorkflowAction::WaitForWork
            },
        }
    }

    fn next_call(&mut self) -> (r: WorkflowAction)
        requires
            old(self).step_inv(),
            old(self)@.pending_approval is None,
            0 <= old(self)@.next_call < old(self)@.calls.len(),
        ensures
            final(self).wf(),
            (final(self)@, r@) == next_call_spec(old(self)@),
    {
        let n = self.calls.len();
        assert(self.calls@.len() == self@.calls.len());
        assert(self.next_call < n);
        self.next_call = self.next_call + 1;
        if self.next_call < self.calls.len() {
            self.handle_call()
        } else {
            self.iterate()
        }
    }

    fn model_responded(&mut self, out: ModelCallOutput) -> (r: WorkflowAction)
        requires
            old(self).wf(),
            old(self)@.phase == Phase::AwaitingModel,
            old(self)@.total_iterations < u32::MAX,
        ensures
            final(self).wf(),
            (final(self)@, r@) == model_responded_spec(old(self)@, items_view(out.items@)),
    {
        let mut items = out.items;
        let ghost iv = items_view(items@);
        let mut calls: Vec<ResponseItem> = Vec::new();
        let mut last: Option<String> = None;
        let mut i: usize = 0;
        let ghost ev0 = self@.events;
        while i < items.len()
            invariant
                old(self).wf(),
                self.step_inv(),
                self@.pending_approval is None,
                self@ == (WorkflowView {
                    events: self@.events,
                    ..old(self)@
                }),
                iv == items_view(items@),
                i <= items@.len(),
                items_view(calls@) == function_calls(iv.subrange(0, i as int)),
                opt_str(last) == last_assistant_text(iv.subrange(0, i as int)),
                self@.events == ev0 + agent_message_events(self@.turn_id, iv.subrange(0, i as int)),
                ev0 == old(self)@.events,
            decreases items@.len() - i,
        {
            let ghost before = iv.subrange(0, i as int);
            let ghost after = iv.subrange(0, i + 1);
            assert(after.drop_last() =~= before);
            assert(after.last() == items@[i as int]@);
            match &items[i] {
                ResponseItem::Message { role, text } => {
                    let assistant = role.eq(&String::from_str("assistant"));
                    if assistant {
                        last = Some(text.clone());
                        let ev = Event {
                            id: self.turn_id.clone(),
                            msg: EventMsg::AgentMessage { message: text.clone() },
                        };
                        self.emit(ev);
                        assert(self@.events =~= ev0 + agent_message_events(self@.turn_id, after));
                    }
                },
                ResponseItem::FunctionCall { .. } => {
                    calls.push(items[i].copy());
                    assert(items_view(calls@) =~= function_calls(after));
                },
                _ => {},
            }
            i = i + 1;
            assert(items_view(calls@) =~= function_calls(after));
            assert(self@.events =~= ev0 + agent_message_events(self@.turn_id, after));
        }
        assert(iv.subrange(0, items@.len() as int) =~= iv);
        let ghost hist0 = self@.history;
        self.history.append(&mut items);
        assert(self@.history =~= hist0 + iv);
        self.turn_iterations = self.turn_iterations + 1;
        self.total_iterations = self.total_iterations + 1;
        if last.is_some() {
            self.last_agent_message = last;
        }
        let n = calls.len();
        self.calls = calls;
        self.next_call = 0;
        proof {
            let c = function_calls(iv);
            assert forall|j: int| 0 <= j < c.len() implies (#[trigger] c[j]) is FunctionCall by {
                lemma_function_calls_are_calls(iv, j);
            }
            lemma_agent_messages_not_turns(old(self)@.turn_id, iv);
            lemma_started_concat_no_turns(old(self)@.events, agent_message_events(old(self)@.turn_id, iv));
        }
        if n == 0 {
            self.complete_turn()
        } else {
            self.handle_call()
        }
    }

    fn approval_ready_step(&mut self) -> (r: WorkflowAction)
        requires
            old(self).wf(),
            old(self)@.phase == Phase::AwaitingApproval,
        ensures
            final(self).wf(),
            (final(self)@, r@) == approval_ready_spec(old(self)@),
    {
        let approved = match &self.pending_approval {
            Some(p) => match p.decision {
                Some(d) => d,
                None => false,
            },
            None => false,
        };
        self.pending_approval = None;
        let i = self.next_call;
        assert(self@.calls[i as int] == self.calls@[i as int]@);
        assert(self@.calls[i as int] is FunctionCall);
        match &self.calls[i] {
            ResponseItem::FunctionCall { name, call_id, arguments } => {
                if approved {
                    let name = name.clone();
                    let call_id = call_id.clone();
                    let arguments = arguments.clone();
                    self.phase = Phase::AwaitingTool;
                    assert(self@ == (WorkflowView {
                        pending_approval: None,
                        phase: Phase::AwaitingTool,
                        ..old(self)@
                    }));
                    self.exec_input(&name, &call_id, &arguments)
                } else {
                    let denied = denied_response(call_id.clone());
                    self.history.push(denied.into_response_item());
                    assert(self@.history =~= old(self)@.history.push(
                        tool_output_item(call_id@, DENIED_MESSAGE@, DENIED_EXIT_CODE as int),
                    ));
                    assert(self@ == (WorkflowView {
                        history: old(self)@.history.push(
                            tool_output_item(call_id@, DENIED_MESSAGE@, DENIED_EXIT_CODE as int),
                        ),
                        pending_approval: None,
                        ..old(self)@
                    }));
                    self.next_call()
                }
            },
            _ => {
                assert(false);
                WorkflowAction::WaitForWork
            },
        }
    }

    /// Advance the run loop with what happened since the last action, and
    /// return the next action.
    pub fn step(&mut self, resume: Resume) -> (r: WorkflowAction)
        requires
            old(self).wf(),
            accepts_spec(old(self)@, resume@),
        ensures
            final(self).wf(),
            (final(self)@, r@) == step_spec(old(self)@, resume@),
            extends(old(self)@.events, final(self)@.events),
    {
        proof {
            lemma_step_extends_events(self@, resume@);
        }
        match resume {
            Resume::Start { random_seed, tools } => {
                let mut random = TemporalRandomSource::new(random_seed);
                self.conversation_id = random.uuid();
                self.tools = tools;
                assert(self@ == (WorkflowView {
                    conversation_id: conversation_id_for(random_seed),
                    tools: strs(tools@),
                    ..old(self)@
                }));
                self.idle()
            },
            Resume::Woken => self.idle(),
            Resume::ModelResponded(out) => self.model_responded(out),
            Resume::ModelFailed => {
                self.turn_iterations = self.turn_iterations + 1;
                self.total_iterations = self.total_iterations + 1;
                self.complete_turn()
            },
            Resume::ApprovalReady => self.approval_ready_step(),
            Resume::ToolFinished(out) => {
                let ghost out_view = (out.call_id@, out.output@, out.exit_code as int);
                let item = out.into_response_input_item();
                self.history.push(item.into_response_item());
                assert(self@.history =~= old(self)@.history.push(
                    tool_output_item(out_view.0, out_view.1, out_view.2),
                ));
                self.next_call()
            },
            Resume::ToolFailed => self.complete_turn(),
        }
    }
}

proof fn lemma_function_calls_are_calls(items: Seq<ResponseItemView>, j: int)
    requires
        0 <= j < function_calls(items).len(),
    ensures
        function_calls(items)[j] is FunctionCall,
    decreases items.len(),
{
    if items.len() > 0 {
        let rest = function_calls(items.drop_last());
        if j < rest.len() {
            lemma_function_calls_are_calls(items.drop_last(), j);
        }
    }
}

// ---------------------------------------------------------------------------
// Event history only grows
// ---------------------------------------------------------------------------

/// `b` starts with all of `a`.
pub open spec fn extends(a: Seq<EventView>, b: Seq<EventView>) -> bool {
    a.len() <= b.len() && b.subrange(0, a.len() as int) == a
}

proof fn lemma_extends_push(a: Seq<EventView>, e: EventView)
    ensures
        extends(a, a.push(e)),
{
    assert(a.push(e).subrange(0, a.len() as int) =~= a);
}

proof fn lemma_extends_append(a: Seq<EventView>, b: Seq<EventView>)
    ensures
        extends(a, a + b),
{
    assert((a + b).subrange(0, a.len() as int) =~= a);
}

proof fn lemma_extends_trans(a: Seq<EventView>, b: Seq<EventView>, c: Seq<EventView>)
    requires
        extends(a, b),
        extends(b, c),
    ensures
        extends(a, c),
{
    assert(c.subrange(0, a.len() as int) =~= b.subrange(0, a.len() as int));
}

proof fn lemma_extends_refl(a: Seq<EventView>)
    ensures
        extends(a, a),
{
    assert(a.subrange(0, a.len() as int) =~= a);
}

proof fn lemma_finish_extends(v: WorkflowView)
    ensures
        extends(v.events, finish_spec(v).0.events),
{
    lemma_extends_push(v.events, EventView { id: Seq::empty(), msg: EventMsgView::ShutdownComplete });
}

proof fn lemma_idle_extends(v: WorkflowView)
    ensures
        extends(v.events, idle_spec(v).0.events),
{
    if v.user_turns.len() > 0 {
        let t = v.user_turns[0];
        lemma_extends_push(
            v.events,
            EventView { id: t.0, msg: EventMsgView::TurnStarted { turn_id: t.0 } },
        );
    } else if v.shutdown_requested {
        lemma_finish_extends(v);
    } else {
        lemma_extends_refl(v.events);
    }
}

proof fn lemma_complete_turn_extends(v: WorkflowView)
    ensures
        extends(v.events, complete_turn_spec(v).0.events),
{
    let e = EventView {
        id: v.turn_id,
        msg: EventMsgView::TurnComplete {
            turn_id: v.turn_id,
            last_agent_message: v.last_agent_message,
        },
    };
    let v2 = WorkflowView { events: v.events.push(e), ..v };
    lemma_extends_push(v.events, e);
    lemma_finish_extends(v2);
    lemma_idle_extends(v2);
    lemma_extends_trans(v.events, v2.events, complete_turn_spec(v).0.events);
}

proof fn lemma_iterate_extends(v: WorkflowView)
    ensures
        extends(v.events, iterate_spec(v).0.events),
{
    if v.turn_iterations >= MAX_ITERATIONS {
        let e = EventView {
            id: v.turn_id,
            msg: EventMsgView::Warning { message: MAX_ITERATIONS_WARNING@ },
        };
        let v2 = WorkflowView { events: v.events.push(e), ..v };
        lemma_extends_push(v.events, e);
        lemma_complete_turn_extends(v2);
        lemma_extends_trans(v.events, v2.events, iterate_spec(v).0.events);
    } else {
        lemma_extends_refl(v.events);
    }
}

proof fn lemma_handle_call_extends(v: WorkflowView)
    requires
        0 <= v.next_call < v.calls.len(),
    ensures
        extends(v.events, handle_call_spec(v).0.events),
{
    let c = v.calls[v.next_call];
    match c {
        ResponseItemView::FunctionCall { name, call_id, arguments } => {
            let command = display_command(json_command_field(arguments), arguments);
            lemma_extends_push(
                v.events,
                EventView {
                    id: v.turn_id,
                    msg: EventMsgView::ExecApprovalRequest {
                        call_id,
                        turn_id: v.turn_id,
                        command,
                        cwd: WORKING_DIR@,
                    },
                },
            );
            lemma_extends_refl(v.events);
        },
        _ => {
            lemma_extends_refl(v.events);
        },
    }
}

proof fn lemma_next_call_extends(v: WorkflowView)
    requires
        0 <= v.next_call,
    ensures
        extends(v.events, next_call_spec(v).0.events),
{
    let v2 = WorkflowView { next_call: v.next_call + 1, ..v };
    if v2.next_call < v2.calls.len() {
        lemma_handle_call_extends(v2);
    } else {
        lemma_iterate_extends(v2);
    }
}

/// Every step keeps the events already emitted, at their indices: the
/// event list only grows at its end.
pub proof fn lemma_step_extends_events(v: WorkflowView, r: ResumeView)
    requires
        workflow_inv(v),
        accepts_spec(v, r),
    ensures
        extends(v.events, step_spec(v, r).0.events),
{
    match r {
        ResumeView::Start { random_seed, tools } => {
            lemma_idle_extends(
                WorkflowView { conversation_id: conversation_id_for(random_seed), tools, ..v },
            );
        },
        ResumeView::Woken => {
            lemma_idle_extends(v);
        },
        ResumeView::ModelResponded { items } => {
            let calls = function_calls(items);
            let v2 = WorkflowView {
                history: v.history + items,
                events: v.events + agent_message_events(v.turn_id, items),
                turn_iterations: v.turn_iterations + 1,
                total_iterations: v.total_iterations + 1,
                last_agent_message: match last_assistant_text(items) {
                    Some(t) => Some(t),
                    None => v.last_agent_message,
                },
                calls,
                next_call: 0,
                ..v
            };
            lemma_extends_append(v.events, agent_message_events(v.turn_id, items));
            if calls.len() == 0 {
                lemma_complete_turn_extends(v2);
            } else {
                lemma_handle_call_extends(v2);
            }
            lemma_extends_trans(v.events, v2.events, step_spec(v, r).0.events);
        },
        ResumeView::ModelFailed => {
            lemma_complete_turn_extends(
                WorkflowView {
                    turn_iterations: v.turn_iterations + 1,
                    total_iterations: v.total_iterations + 1,
                    ..v
                },
            );
        },
        ResumeView::ApprovalReady => {
            let approved = match v.pending_approval {
                Some(p) => match p.1 {
                    Some(d) => d,
                    None => false,
                },
                None => false,
            };
            let v2 = WorkflowView { pending_approval: None, ..v };
            let c = v.calls[v.next_call];
            if approved {
                lemma_extends_refl(v.events);
            } else {
                match c {
                    ResponseItemView::FunctionCall { call_id, .. } => {
                        lemma_next_call_extends(
                            WorkflowView {
                                history: v2.history.push(
                                    tool_output_item(
                                        call_id,
                                        DENIED_MESSAGE@,
                                        DENIED_EXIT_CODE as int,
                                    ),
                                ),
                                ..v2
                            },
                        );
                    },
                    _ => {
                        lemma_extends_refl(v.events);
                    },
                }
            }
        },
        ResumeView::ToolFinished { call_id, output, exit_code } => {
            lemma_next_call_extends(
                WorkflowView {
                    history: v.history.push(tool_output_item(call_id, output, exit_code)),
                    ..v
                },
            );
        },
        ResumeView::ToolFailed => {
            lemma_complete_turn_extends(v);
        },
    }
}

// ---------------------------------------------------------------------------
// Laws
// ---------------------------------------------------------------------------

/// Approval signals are idempotent: a repeated signal changes nothing, and
/// once the decision has been read and cleared, a late duplicate is dropped.
pub proof fn lemma_approval_idempotent(
    pending: Option<(Seq<char>, Option<bool>)>,
    call_id: Seq<char>,
    approved: bool,
)
    ensures
        apply_approval(apply_approval(pending, call_id, approved), call_id, approved)
            == apply_approval(pending, call_id, approved),
        apply_approval(None, call_id, approved) == None::<(Seq<char>, Option<bool>)>,
{
}

/// Turns start in submission order: the ids of the `TurnStarted` events are
/// a prefix of the ids of all turns ever queued, and the rest are still
/// queued.
pub proof fn lemma_turns_start_in_order(w: &CodexWorkflow)
    requires
        w.wf(),
    ensures
        started_turn_ids(w@.events).len() <= w@.submitted.len(),
        started_turn_ids(w@.events) == w@.submitted.subrange(
            0,
            started_turn_ids(w@.events).len() as int,
        ),
        queued_turn_ids(w@.user_turns) == w@.submitted.subrange(
            started_turn_ids(w@.events).len() as int,
            w@.submitted.len() as int,
        ),
{
    let s = started_turn_ids(w@.events);
    let q = queued_turn_ids(w@.user_turns);
    assert((s + q).subrange(0, s.len() as int) =~= s);
    assert((s + q).subrange(s.len() as int, (s + q).len() as int) =~= q);
}

} // verus!
