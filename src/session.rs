//! The client-side session adapter: a `submit(op)` / `next_event()` API
//! over the workflow's signals and queries.
//!
//! The adapter's decisions live here; its driver performs the engine calls
//! (start, signal, query, sleep) that the decisions ask for, and reports
//! back what happened.

use vstd::prelude::*;

use crate::protocol::{
    events_view, is_approval, normalize_decision, Event, EventMsg, EventMsgView, EventView, Op,
    UserInput,
};
use crate::text::{decimal, push_decimal};
use crate::types::{ApprovalInput, CodexWorkflowInput, UserTurnInput};

verus! {

/// The task queue shared by the workflow and activity workers.
pub const TASK_QUEUE: &'static str = "codex-temporal";

/// The first delay between empty polls, in milliseconds.
pub const INITIAL_BACKOFF_MS: u64 = 50;

/// The longest delay between empty polls, in milliseconds.
pub const MAX_BACKOFF_MS: u64 = 500;

/// The delay between checks while the workflow has not been started.
pub const NOT_STARTED_SLEEP_MS: u64 = 100;

/// The id returned for an interrupt, which the workflow does not support.
pub const INTERRUPT_NOOP_ID: &'static str = "interrupt-noop";

/// The id returned for operations the workflow ignores.
pub const NOOP_ID: &'static str = "noop";

/// The id returned once shutdown has been signalled.
pub const SHUTDOWN_ID: &'static str = "shutdown";

/// The texts of the text items, in order.
pub open spec fn user_texts(items: Seq<UserInput>) -> Seq<Seq<char>>
    decreases items.len(),
{
    if items.len() == 0 {
        Seq::empty()
    } else {
        let rest = user_texts(items.drop_last());
        match items.last() {
            UserInput::Text { text } => rest.push(text@),
            _ => rest,
        }
    }
}

/// The lines of `v` joined with newlines.
pub open spec fn join_lines(v: Seq<Seq<char>>) -> Seq<char>
    decreases v.len(),
{
    if v.len() == 0 {
        Seq::empty()
    } else if v.len() == 1 {
        v[0]
    } else {
        join_lines(v.drop_last()) + seq!['\n'] + v.last()
    }
}

/// The message of a user turn: its text items joined with newlines.
pub open spec fn turn_message(items: Seq<UserInput>) -> Seq<char> {
    join_lines(user_texts(items))
}

/// The id of the `n`-th turn submitted through the adapter.
pub open spec fn turn_id_for(n: nat) -> Seq<char> {
    "turn-"@ + decimal(n)
}

/// Extract the message of a user turn (see `turn_message`).
pub fn extract_message(items: &Vec<UserInput>) -> (r: String)
    ensures
        r@ == turn_message(items@),
{
    let mut s = String::new();
    let mut count: usize = 0;
    let mut i: usize = 0;
    while i < items.len()
        invariant
            i <= items@.len(),
            count <= i,
            count == user_texts(items@.subrange(0, i as int)).len(),
            s@ == join_lines(user_texts(items@.subrange(0, i as int))),
        decreases items@.len() - i,
    {
        let ghost before = items@.subrange(0, i as int);
        let ghost after = items@.subrange(0, i + 1);
        assert(after.drop_last() =~= before);
        match &items[i] {
            UserInput::Text { text } => {
                if count > 0 {
                    proof {
                        reveal_strlit("\n");
                    }
                    assert("\n"@ =~= seq!['\n']);
                    s.append("\n");
                } else {
                    assert(user_texts(before) =~= Seq::<Seq<char>>::empty());
                }
                s.append(text.as_str());
                assert(user_texts(after) == user_texts(before).push(text@));
                assert(user_texts(after).drop_last() =~= user_texts(before));
                count = count + 1;
            },
            _ => {},
        }
        i = i + 1;
        assert(s@ =~= join_lines(user_texts(after)));
    }
    assert(items@.subrange(0, items@.len() as int) =~= items@);
    s
}

/// Builds `turn_id_for(n)`.
pub fn turn_id_text(n: u32) -> (r: String)
    ensures
        r@ == turn_id_for(n as nat),
{
    let mut s = String::from_str("turn-");
    push_decimal(&mut s, n as u64);
    s
}

/// What `submit` asks its driver to do.
#[derive(Debug)]
pub enum SessionCommand {
    /// Start the workflow; on success call `workflow_started` and return
    /// `turn_id`.
    StartWorkflow { input: CodexWorkflowInput, turn_id: String },
    /// Signal a new turn; on success return its `turn_id`.
    SignalUserTurn(UserTurnInput),
    /// Signal an approval decision; on success return its `call_id`.
    SignalApproval(ApprovalInput),
    /// Signal shutdown; on success call `shutdown_signalled` and return
    /// `SHUTDOWN_ID`.
    SignalShutdown,
    /// Nothing to send; return this id.
    Reply(String),
}

/// What `next_event` asks its driver to do.
#[derive(Debug)]
pub enum EventStep {
    /// Return this event.
    Deliver(Event),
    /// Sleep this many milliseconds, then ask again.
    Sleep { ms: u64 },
    /// Query the events from this index and report with `poll_outcome`.
    Query { from_index: usize },
}

/// The result of an event query.
#[derive(Debug)]
pub enum PollOutcome {
    /// The reply: the watermark it carried, if any, and its events.
    Reply { watermark: Option<usize>, events: Vec<Event> },
    /// The query failed.
    Failed,
}

/// The delay before the next poll: starts at `INITIAL_BACKOFF_MS` and
/// doubles after each use, up to `MAX_BACKOFF_MS`.
#[derive(Debug)]
pub struct Backoff {
    pub ms: u64,
}

impl Backoff {
    pub open spec fn wf(&self) -> bool {
        self.ms <= MAX_BACKOFF_MS
    }

    pub fn new() -> (r: Self)
        ensures
            r.ms == INITIAL_BACKOFF_MS,
            r.wf(),
    {
        Backoff { ms: INITIAL_BACKOFF_MS }
    }

    /// The current delay; the next one doubles it, capped.
    pub fn next(&mut self) -> (r: u64)
        requires
            old(self).wf(),
        ensures
            r == old(self).ms,
            final(self).ms == if 2 * old(self).ms <= MAX_BACKOFF_MS {
                2 * old(self).ms
            } else {
                MAX_BACKOFF_MS as int
            },
            final(self).wf(),
    {
        let r = self.ms;
        let doubled = self.ms * 2;
        self.ms = if doubled <= MAX_BACKOFF_MS {
            doubled
        } else {
            MAX_BACKOFF_MS
        };
        r
    }
}

/// The adapter's state (one per UI).
pub struct SessionView {
    pub workflow_id: Seq<char>,
    pub started: bool,
    pub events_index: int,
    pub event_buffer: Seq<EventView>,
    pub turn_counter: int,
    pub shutdown: bool,
}

/// A session adapter backed by one workflow, identified by `workflow_id`.
pub struct TemporalAgentSession {
    workflow_id: String,
    /// Workflow input template; the user message comes from the first turn.
    base_input: CodexWorkflowInput,
    started: bool,
    events_index: usize,
    event_buffer: Vec<Event>,
    turn_counter: u32,
    shutdown: bool,
}

impl View for TemporalAgentSession {
    type V = SessionView;

    closed spec fn view(&self) -> SessionView {
        SessionView {
            workflow_id: self.workflow_id@,
            started: self.started,
            events_index: self.events_index as int,
            event_buffer: events_view(self.event_buffer@),
            turn_counter: self.turn_counter as int,
            shutdown: self.shutdown,
        }
    }
}

impl TemporalAgentSession {
    /// The workflow input template.
    pub closed spec fn base_spec(&self) -> CodexWorkflowInput {
        self.base_input
    }

    /// Create a new session; the workflow starts with the first user turn.
    pub fn new(workflow_id: String, base_input: CodexWorkflowInput) -> (r: Self)
        ensures
            r@ == (SessionView {
                workflow_id: workflow_id@,
                started: false,
                events_index: 0,
                event_buffer: Seq::empty(),
                turn_counter: 0,
                shutdown: false,
            }),
            r.base_spec() == base_input,
    {
        let r = TemporalAgentSession {
            workflow_id,
            base_input,
            started: false,
            events_index: 0,
            event_buffer: Vec::new(),
            turn_counter: 0,
            shutdown: false,
        };
        assert(r@.event_buffer =~= Seq::<EventView>::empty());
        r
    }

    /// The workflow id.
    pub fn workflow_id(&self) -> (r: &String)
        ensures
            r@ == self@.workflow_id,
    {
        &self.workflow_id
    }

    fn next_turn_id(&mut self) -> (r: String)
        requires
            old(self)@.turn_counter < u32::MAX,
        ensures
            final(self)@ == (SessionView { turn_counter: old(self)@.turn_counter + 1, ..old(self)@ }),
            final(self).base_spec() == old(self).base_spec(),
            r@ == turn_id_for((old(self)@.turn_counter + 1) as nat),
    {
        self.turn_counter = self.turn_counter + 1;
        turn_id_text(self.turn_counter)
    }

    /// Decide what an operation needs: the first user turn starts the
    /// workflow, later ones are signalled; approvals are normalized to a
    /// boolean; shutdown is signalled; everything else is a no-op.
    pub fn submit(&mut self, op: Op) -> (r: SessionCommand)
        requires
            op is UserTurn ==> old(self)@.turn_counter < u32::MAX,
        ensures
            final(self).base_spec() == old(self).base_spec(),
            match op {
                Op::UserTurn { items } => {
                    let id = turn_id_for((old(self)@.turn_counter + 1) as nat);
                    &&& final(self)@ == (SessionView {
                        turn_counter: old(self)@.turn_counter + 1,
                        ..old(self)@
                    })
                    &&& if old(self)@.started {
                        r matches SessionCommand::SignalUserTurn(t) && t.turn_id@ == id
                            && t.message@ == turn_message(items@)
                    } else {
                        r matches SessionCommand::StartWorkflow { input, turn_id } && turn_id@ == id
                            && input.user_message@ == turn_message(items@) && input.model@
                            == old(self).base_spec().model@ && input.instructions@ == old(
                            self,
                        ).base_spec().instructions@ && input.approval_policy == old(
                            self,
                        ).base_spec().approval_policy && input.web_search_mode == old(
                            self,
                        ).base_spec().web_search_mode
                    }
                },
                Op::ExecApproval { id, decision } => final(self)@ == old(self)@ && (
                r matches SessionCommand::SignalApproval(a) && a.call_id@ == id@ && a.approved
                    == is_approval(decision)),
                Op::Shutdown => final(self)@ == old(self)@ && r is SignalShutdown,
                Op::Interrupt => final(self)@ == old(self)@ && (r matches SessionCommand::Reply(
                    s,
                ) && s@ == INTERRUPT_NOOP_ID@),
                Op::Other => final(self)@ == old(self)@ && (r matches SessionCommand::Reply(s)
                    && s@ == NOOP_ID@),
            },
    {
        match op {
            Op::UserTurn { items } => {
                let message = extract_message(&items);
                let turn_id = self.next_turn_id();
                if self.started {
                    SessionCommand::SignalUserTurn(UserTurnInput { turn_id, message })
                } else {
                    let input = CodexWorkflowInput {
                        user_message: message,
                        model: self.base_input.model.clone(),
                        instructions: self.base_input.instructions.clone(),
                        approval_policy: self.base_input.approval_policy,
                        web_search_mode: self.base_input.web_search_mode,
                    };
                    SessionCommand::StartWorkflow { input, turn_id }
                }
            },
            Op::ExecApproval { id, decision } => {
                let approved = normalize_decision(&decision);
                SessionCommand::SignalApproval(ApprovalInput { call_id: id, approved })
            },
            Op::Shutdown => SessionCommand::SignalShutdown,
            Op::Interrupt => SessionCommand::Reply(String::from_str(INTERRUPT_NOOP_ID)),
            Op::Other => SessionCommand::Reply(String::from_str(NOOP_ID)),
        }
    }

    /// Record that the workflow was started.
    pub fn workflow_started(&mut self)
        ensures
            final(self)@ == (SessionView { started: true, ..old(self)@ }),
            final(self).base_spec() == old(self).base_spec(),
    {
        self.started = true;
    }

    /// Record that shutdown was signalled.
    pub fn shutdown_signalled(&mut self)
        ensures
            final(self)@ == (SessionView { shutdown: true, ..old(self)@ }),
            final(self).base_spec() == old(self).base_spec(),
    {
        self.shutdown = true;
    }

    fn take_buffered(&mut self) -> (r: Event)
        requires
            old(self)@.event_buffer.len() > 0,
        ensures
            r@ == old(self)@.event_buffer[0],
            final(self)@ == (SessionView {
                event_buffer: old(self)@.event_buffer.drop_first(),
                ..old(self)@
            }),
            final(self).base_spec() == old(self).base_spec(),
    {
        let e = self.event_buffer.remove(0);
        assert(self@.event_buffer =~= old(self)@.event_buffer.drop_first());
        e
    }

    /// The next thing `next_event` does: hand out a buffered event, wait
    /// for the workflow to be started, or query from the watermark.
    pub fn next_event_step(&mut self) -> (r: EventStep)
        ensures
            final(self).base_spec() == old(self).base_spec(),
            old(self)@.event_buffer.len() > 0 ==> final(self)@ == (SessionView {
                event_buffer: old(self)@.event_buffer.drop_first(),
                ..old(self)@
            }) && (r matches EventStep::Deliver(e) && e@ == old(self)@.event_buffer[0]),
            old(self)@.event_buffer.len() == 0 ==> final(self)@ == old(self)@,
            old(self)@.event_buffer.len() == 0 && !old(self)@.started ==> (r matches EventStep::Sleep {
                ms,
            } && ms == NOT_STARTED_SLEEP_MS),
            old(self)@.event_buffer.len() == 0 && old(self)@.started ==> (r matches EventStep::Query {
                from_index,
            } && from_index == old(self)@.events_index),
    {
        if self.event_buffer.len() > 0 {
            EventStep::Deliver(self.take_buffered())
        } else if !self.started {
            EventStep::Sleep { ms: NOT_STARTED_SLEEP_MS }
        } else {
            EventStep::Query { from_index: self.events_index }
        }
    }

    /// Take in the outcome of a query: move the watermark, buffer the
    /// events and hand out the first; after an empty reply, back off; after
    /// a failure, end the stream with `ShutdownComplete` when shutdown was
    /// signalled, else back off.
    pub fn poll_outcome(&mut self, outcome: PollOutcome, backoff: &mut Backoff) -> (r: EventStep)
        requires
            old(backoff).wf(),
        ensures
            final(backoff).wf(),
            final(self).base_spec() == old(self).base_spec(),
            match outcome {
                PollOutcome::Reply { watermark, events } => {
                    let index = match watermark {
                        Some(w) => w as int,
                        None => old(self)@.events_index,
                    };
                    let buffered = old(self)@.event_buffer + events_view(events@);
                    if buffered.len() > 0 {
                        &&& final(self)@ == (SessionView {
                            events_index: index,
                            event_buffer: buffered.drop_first(),
                            ..old(self)@
                        })
                        &&& r matches EventStep::Deliver(e) && e@ == buffered[0]
                        &&& *final(backoff) == *old(backoff)
                    } else {
                        &&& final(self)@ == (SessionView { events_index: index, ..old(self)@ })
                        &&& r matches EventStep::Sleep { ms } && ms == old(backoff).ms
                        &&& final(backoff).ms == if 2 * old(backoff).ms <= MAX_BACKOFF_MS {
                            2 * old(backoff).ms
                        } else {
                            MAX_BACKOFF_MS as int
                        }
                    }
                },
                PollOutcome::Failed => {
                    &&& final(self)@ == old(self)@
                    &&& if old(self)@.shutdown {
                        &&& r matches EventStep::Deliver(e) && e@ == (EventView {
                            id: Seq::empty(),
                            msg: EventMsgView::ShutdownComplete,
                        })
                        &&& *final(backoff) == *old(backoff)
                    } else {
                        &&& r matches EventStep::Sleep { ms } && ms == old(backoff).ms
                        &&& final(backoff).ms == if 2 * old(backoff).ms <= MAX_BACKOFF_MS {
                            2 * old(backoff).ms
                        } else {
                            MAX_BACKOFF_MS as int
                        }
                    }
                },
            },
    {
        match outcome {
            PollOutcome::Reply { watermark, events } => {
                let ghost ev = events_view(events@);
                match watermark {
                    Some(w) => {
                        self.events_index = w;
                    },
                    None => {},
                }
                let mut events = events;
                let ghost buf0 = self.event_buffer@;
                self.event_buffer.append(&mut events);
                assert(self@.event_buffer =~= events_view(buf0) + ev);
                if self.event_buffer.len() > 0 {
                    EventStep::Deliver(self.take_buffered())
                } else {
                    EventStep::Sleep { ms: backoff.next() }
                }
            },
            PollOutcome::Failed => {
                if self.shutdown {
                    EventStep::Deliver(Event { id: String::new(), msg: EventMsg::ShutdownComplete })
                } else {
                    EventStep::Sleep { ms: backoff.next() }
                }
            },
        }
    }
}

} // verus!
