use codex_temporal::protocol::{AskForApproval, Event, EventMsg, ResponseItem};
use codex_temporal::types::{
    ApprovalInput, CodexWorkflowInput, ModelCallInput, ModelCallOutput, ToolExecInput,
    ToolExecOutput, UserTurnInput,
};
use codex_temporal::workflow::{Phase, Resume, WorkflowAction, MAX_ITERATIONS};
use codex_temporal::CodexWorkflow;

fn workflow(message: &str, policy: AskForApproval) -> CodexWorkflow {
    CodexWorkflow::new(CodexWorkflowInput {
        user_message: message.to_string(),
        model: "gpt-4o".to_string(),
        instructions: "You are a coding assistant.".to_string(),
        approval_policy: policy,
        web_search_mode: None,
    })
}

fn assistant(text: &str) -> ResponseItem {
    ResponseItem::Message { role: "assistant".to_string(), text: text.to_string() }
}

fn shell_call(call_id: &str, arguments: &str) -> ResponseItem {
    ResponseItem::FunctionCall {
        name: "shell".to_string(),
        call_id: call_id.to_string(),
        arguments: arguments.to_string(),
    }
}

fn start(w: &mut CodexWorkflow) -> WorkflowAction {
    let resume = Resume::Start { random_seed: 7, tools: vec!["{\"name\":\"shell\"}".to_string()] };
    assert!(w.accepts(&resume));
    w.step(resume)
}

fn respond(w: &mut CodexWorkflow, items: Vec<ResponseItem>) -> WorkflowAction {
    let resume = Resume::ModelResponded(ModelCallOutput { items });
    assert!(w.accepts(&resume));
    w.step(resume)
}

fn expect_model_call(a: WorkflowAction) -> ModelCallInput {
    match a {
        WorkflowAction::CallModel(m) => m,
        other => panic!("expected a model call, got {other:?}"),
    }
}

fn expect_tool(a: WorkflowAction) -> ToolExecInput {
    match a {
        WorkflowAction::ExecuteTool(t) => t,
        other => panic!("expected a tool execution, got {other:?}"),
    }
}

fn kinds(events: &[Event]) -> Vec<&'static str> {
    events
        .iter()
        .map(|e| match &e.msg {
            EventMsg::TurnStarted { .. } => "started",
            EventMsg::TurnComplete { .. } => "complete",
            EventMsg::ExecApprovalRequest { .. } => "approval",
            EventMsg::AgentMessage { .. } => "message",
            EventMsg::Warning { .. } => "warning",
            EventMsg::ShutdownComplete => "shutdown",
        })
        .collect()
}

fn last_complete(events: &[Event]) -> (String, Option<String>) {
    events
        .iter()
        .rev()
        .find_map(|e| match &e.msg {
            EventMsg::TurnComplete { turn_id, last_agent_message } => {
                Some((turn_id.clone(), last_agent_message.clone()))
            }
            _ => None,
        })
        .expect("a TurnComplete event")
}

fn history_texts(m: &ModelCallInput) -> Vec<(String, String)> {
    m.input
        .iter()
        .filter_map(|i| match i {
            ResponseItem::Message { role, text } => Some((role.clone(), text.clone())),
            _ => None,
        })
        .collect()
}

#[test]
fn first_message_is_seeded_as_turn_zero() {
    let mut w = workflow("hi", AskForApproval::OnRequest);
    assert_eq!(w.phase(), Phase::NotStarted);
    assert!(w.wake_ready());
    let m = expect_model_call(start(&mut w));
    assert_eq!(history_texts(&m), vec![("user".to_string(), "hi".to_string())]);
    assert_eq!(m.model, "gpt-4o");
    assert_eq!(m.instructions, "You are a coding assistant.");
    assert_eq!(m.tools, vec!["{\"name\":\"shell\"}".to_string()]);
    assert!(!m.parallel_tool_calls);
    assert_eq!(m.conversation_id.len(), 36);
    let events = w.get_events();
    assert_eq!(events.len(), 1);
    assert_eq!(events[0].id, "turn-0");
}

#[test]
fn empty_message_waits_for_a_turn() {
    let mut w = workflow("", AskForApproval::OnRequest);
    assert!(!w.wake_ready());
    assert!(matches!(start(&mut w), WorkflowAction::WaitForWork));
    assert_eq!(w.phase(), Phase::Idle);
    assert!(w.get_events().is_empty());
}

#[test]
fn conversation_id_depends_on_seed_only() {
    let mut a = workflow("x", AskForApproval::Never);
    let mut b = workflow("y", AskForApproval::Never);
    let ma = expect_model_call(start(&mut a));
    let mb = expect_model_call(start(&mut b));
    assert_eq!(ma.conversation_id, mb.conversation_id);
}

#[test]
fn model_only_turn() {
    let mut w = workflow("Say hello in one sentence.", AskForApproval::OnRequest);
    expect_model_call(start(&mut w));
    let a = respond(&mut w, vec![assistant("Hello there, nice to meet you!")]);
    assert!(matches!(a, WorkflowAction::WaitForWork));
    let events = w.get_events();
    assert_eq!(kinds(&events), vec!["started", "message", "complete"]);
    let (turn_id, last) = last_complete(&events);
    assert_eq!(turn_id, "turn-0");
    assert!(!last.unwrap().is_empty());
}

#[test]
fn approval_then_execute() {
    let mut w = workflow("Use shell to run 'echo hello world'.", AskForApproval::OnRequest);
    expect_model_call(start(&mut w));
    let args = r#"{"command":["echo","hello world"]}"#;
    let a = respond(&mut w, vec![shell_call("call-1", args)]);
    assert!(matches!(a, WorkflowAction::WaitForApproval));
    assert!(!w.approval_ready());

    let events = w.get_events();
    assert_eq!(kinds(&events), vec!["started", "approval"]);
    match &events[1].msg {
        EventMsg::ExecApprovalRequest { call_id, turn_id, command, cwd } => {
            assert_eq!(call_id, "call-1");
            assert_eq!(turn_id, "turn-0");
            assert_eq!(command, &vec!["echo".to_string(), "hello world".to_string()]);
            assert_eq!(cwd, "/tmp");
        }
        other => panic!("unexpected {other:?}"),
    }

    w.receive_approval(ApprovalInput { call_id: "call-1".to_string(), approved: true });
    assert!(w.approval_ready());
    let t = expect_tool(w.step(Resume::ApprovalReady));
    assert_eq!(t.tool_name, "shell");
    assert_eq!(t.call_id, "call-1");
    assert_eq!(t.arguments, args);
    assert_eq!(t.model, "gpt-4o");
    assert_eq!(t.cwd, "/tmp");

    let m = expect_model_call(w.step(Resume::ToolFinished(ToolExecOutput {
        call_id: "call-1".to_string(),
        output: "hello world\n".to_string(),
        exit_code: 0,
    })));
    match m.input.last() {
        Some(ResponseItem::FunctionCallOutput { call_id, output }) => {
            assert_eq!(call_id, "call-1");
            assert_eq!(output.success, Some(true));
            assert!(output.body.contains("hello world"));
        }
        other => panic!("unexpected {other:?}"),
    }

    respond(&mut w, vec![assistant("The command printed: hello world")]);
    let (_, last) = last_complete(&w.get_events());
    assert!(last.unwrap().contains("hello world"));
}

#[test]
fn approval_denied() {
    let mut w = workflow("Use shell to run 'echo hello world'.", AskForApproval::OnRequest);
    expect_model_call(start(&mut w));
    respond(&mut w, vec![shell_call("call-1", r#"{"command":["echo","hello world"]}"#)]);
    w.receive_approval(ApprovalInput { call_id: "call-1".to_string(), approved: false });

    let m = expect_model_call(w.step(Resume::ApprovalReady));
    match m.input.last() {
        Some(ResponseItem::FunctionCallOutput { call_id, output }) => {
            assert_eq!(call_id, "call-1");
            assert_eq!(output.success, Some(false));
            assert!(output.body.contains("Tool execution was denied by the user."));
        }
        other => panic!("unexpected {other:?}"),
    }
    respond(&mut w, vec![assistant("I could not run it: the call was denied.")]);
    let (_, last) = last_complete(&w.get_events());
    assert!(last.unwrap().contains("denied"));
}

#[test]
fn approval_for_another_call_is_dropped() {
    let mut w = workflow("run it", AskForApproval::OnRequest);
    expect_model_call(start(&mut w));
    respond(&mut w, vec![shell_call("call-1", "{}")]);
    w.receive_approval(ApprovalInput { call_id: "call-2".to_string(), approved: true });
    assert!(!w.approval_ready());
}

#[test]
fn repeated_approval_is_idempotent() {
    let mut w = workflow("run it", AskForApproval::OnRequest);
    expect_model_call(start(&mut w));
    respond(&mut w, vec![shell_call("call-1", "{}")]);
    let approval = || ApprovalInput { call_id: "call-1".to_string(), approved: true };
    w.receive_approval(approval());
    w.receive_approval(approval());
    assert!(w.approval_ready());
    expect_tool(w.step(Resume::ApprovalReady));
    w.receive_approval(approval());
    assert_eq!(w.phase(), Phase::AwaitingTool);
    assert!(!w.accepts(&Resume::ApprovalReady));
}

#[test]
fn safe_commands_skip_approval_when_untrusted() {
    let mut w = workflow("list", AskForApproval::UnlessTrusted);
    expect_model_call(start(&mut w));
    let t = expect_tool(respond(&mut w, vec![shell_call("c1", r#"{"command":["ls"]}"#)]));
    assert_eq!(t.call_id, "c1");

    let mut w = workflow("delete", AskForApproval::UnlessTrusted);
    expect_model_call(start(&mut w));
    let a = respond(&mut w, vec![shell_call("c2", r#"{"command":["rm","-rf","/"]}"#)]);
    assert!(matches!(a, WorkflowAction::WaitForApproval));
}

#[test]
fn several_calls_are_handled_in_order() {
    let mut w = workflow("two", AskForApproval::Never);
    expect_model_call(start(&mut w));
    let t1 = expect_tool(respond(&mut w, vec![shell_call("a", "{}"), shell_call("b", "{}")]));
    assert_eq!(t1.call_id, "a");
    let t2 = expect_tool(w.step(Resume::ToolFinished(ToolExecOutput {
        call_id: "a".to_string(),
        output: String::new(),
        exit_code: 0,
    })));
    assert_eq!(t2.call_id, "b");
    let m = expect_model_call(w.step(Resume::ToolFinished(ToolExecOutput {
        call_id: "b".to_string(),
        output: String::new(),
        exit_code: 3,
    })));
    assert_eq!(m.input.len(), 5);
}

#[test]
fn multi_turn_memory() {
    let mut w = workflow("Remember the word 'orange'. Reply OK.", AskForApproval::OnRequest);
    expect_model_call(start(&mut w));
    assert!(matches!(respond(&mut w, vec![assistant("OK")]), WorkflowAction::WaitForWork));

    w.receive_user_turn(UserTurnInput {
        turn_id: "turn-2".to_string(),
        message: "What word did I ask you to remember?".to_string(),
    });
    assert!(w.wake_ready());
    let m = expect_model_call(w.step(Resume::Woken));
    assert_eq!(
        history_texts(&m),
        vec![
            ("user".to_string(), "Remember the word 'orange'. Reply OK.".to_string()),
            ("assistant".to_string(), "OK".to_string()),
            ("user".to_string(), "What word did I ask you to remember?".to_string()),
        ]
    );
    respond(&mut w, vec![assistant("You asked me to remember: orange.")]);
    let (turn_id, last) = last_complete(&w.get_events());
    assert_eq!(turn_id, "turn-2");
    assert!(last.unwrap().contains("orange"));
}

#[test]
fn turns_start_in_submission_order() {
    let mut w = workflow("first", AskForApproval::Never);
    expect_model_call(start(&mut w));
    for id in ["turn-a", "turn-b"] {
        w.receive_user_turn(UserTurnInput { turn_id: id.to_string(), message: id.to_string() });
    }
    expect_model_call(respond(&mut w, vec![assistant("1")]));
    expect_model_call(respond(&mut w, vec![assistant("2")]));
    assert!(matches!(respond(&mut w, vec![assistant("3")]), WorkflowAction::WaitForWork));
    let started: Vec<String> = w
        .get_events()
        .iter()
        .filter_map(|e| match &e.msg {
            EventMsg::TurnStarted { turn_id } => Some(turn_id.clone()),
            _ => None,
        })
        .collect();
    assert_eq!(started, vec!["turn-0", "turn-a", "turn-b"]);
}

#[test]
fn shutdown_during_idle() {
    let mut w = workflow("hello", AskForApproval::OnRequest);
    expect_model_call(start(&mut w));
    assert!(matches!(respond(&mut w, vec![assistant("hi")]), WorkflowAction::WaitForWork));
    w.request_shutdown();
    assert!(w.wake_ready());
    match w.step(Resume::Woken) {
        WorkflowAction::Finish(out) => {
            assert_eq!(out.last_agent_message.as_deref(), Some("hi"));
            assert_eq!(out.iterations, 1);
        }
        other => panic!("expected Finish, got {other:?}"),
    }
    let events = w.get_events();
    assert_eq!(kinds(&events).iter().filter(|k| **k == "shutdown").count(), 1);
    assert_eq!(events.last().unwrap().id, "");
    assert_eq!(w.phase(), Phase::Finished);
    assert!(!w.accepts(&Resume::Woken));
}

#[test]
fn shutdown_requested_mid_turn_exits_after_it() {
    let mut w = workflow("hello", AskForApproval::Never);
    expect_model_call(start(&mut w));
    w.receive_user_turn(UserTurnInput { turn_id: "turn-9".to_string(), message: "m".to_string() });
    w.request_shutdown();
    let a = respond(&mut w, vec![assistant("done")]);
    assert!(matches!(a, WorkflowAction::Finish(_)));
    assert_eq!(kinds(&w.get_events()), vec!["started", "message", "complete", "shutdown"]);
}

#[test]
fn max_iterations() {
    let mut w = workflow("loop forever", AskForApproval::Never);
    expect_model_call(start(&mut w));
    let mut responses = 0u32;
    loop {
        let call_id = format!("call-{responses}");
        let action = respond(&mut w, vec![shell_call(&call_id, r#"{"command":["true"]}"#)]);
        responses += 1;
        expect_tool(action);
        let next = w.step(Resume::ToolFinished(ToolExecOutput {
            call_id,
            output: String::new(),
            exit_code: 0,
        }));
        match next {
            WorkflowAction::CallModel(_) => continue,
            WorkflowAction::WaitForWork => break,
            other => panic!("unexpected {other:?}"),
        }
    }
    assert_eq!(responses, MAX_ITERATIONS);
    let k = kinds(&w.get_events());
    assert_eq!(&k[k.len() - 2..], &["warning", "complete"]);
    w.request_shutdown();
    match w.step(Resume::Woken) {
        WorkflowAction::Finish(out) => assert_eq!(out.iterations, 50),
        other => panic!("expected Finish, got {other:?}"),
    }
}

#[test]
fn model_failure_completes_the_turn() {
    let mut w = workflow("hello", AskForApproval::Never);
    expect_model_call(start(&mut w));
    assert!(matches!(w.step(Resume::ModelFailed), WorkflowAction::WaitForWork));
    let (turn_id, last) = last_complete(&w.get_events());
    assert_eq!(turn_id, "turn-0");
    assert_eq!(last, None);
}

#[test]
fn tool_failure_completes_the_turn() {
    let mut w = workflow("hello", AskForApproval::Never);
    expect_model_call(start(&mut w));
    expect_tool(respond(&mut w, vec![assistant("running"), shell_call("c", "{}")]));
    assert!(matches!(w.step(Resume::ToolFailed), WorkflowAction::WaitForWork));
    let (_, last) = last_complete(&w.get_events());
    assert_eq!(last.as_deref(), Some("running"));
}

#[test]
fn events_since_watermark() {
    let mut w = workflow("hello", AskForApproval::Never);
    expect_model_call(start(&mut w));
    respond(&mut w, vec![assistant("hi")]);
    let (all, watermark) = w.get_events_since(0);
    assert_eq!(all.len(), 3);
    assert_eq!(watermark, 3);
    let (tail, watermark) = w.get_events_since(2);
    assert_eq!(tail.len(), 1);
    assert_eq!(watermark, 3);
    let (none, watermark) = w.get_events_since(10);
    assert!(none.is_empty());
    assert_eq!(watermark, 3);
}
