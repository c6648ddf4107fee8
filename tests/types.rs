use codex_temporal::activities::{
    classify_status, compose_output, extract_tool_output, tool_exec_result, Retry,
};
use codex_temporal::json::{
    events_reply_text, frame_events_reply, frame_tool_output, tool_output_body_text,
};
use codex_temporal::protocol::{
    normalize_decision, parse_approval_policy, parse_web_search_mode, WebSearchMode, AskForApproval, Event, EventMsg, FunctionCallOutputPayload,
    ResponseInputItem, ResponseItem, ReviewDecision,
};
use codex_temporal::sink::BufferEventSink;
use codex_temporal::storage::{InMemoryStorage, RolloutItem};
use codex_temporal::tools::{
    approval_command, command_or_raw, denied_response, is_known_safe_command, needs_approval,
};
use codex_temporal::types::{PendingApproval, ToolExecOutput};

fn strings(v: &[&str]) -> Vec<String> {
    v.iter().map(|s| s.to_string()).collect()
}

fn turn_started(id: &str, turn_id: &str) -> Event {
    Event { id: id.to_string(), msg: EventMsg::TurnStarted { turn_id: turn_id.to_string() } }
}

#[test]
fn tool_exec_output_to_response_input_item() {
    let output = ToolExecOutput {
        call_id: "call-123".to_string(),
        output: "hello world".to_string(),
        exit_code: 0,
    };

    let item = output.into_response_input_item();
    match item {
        ResponseInputItem::FunctionCallOutput { call_id, output } => {
            assert_eq!(call_id, "call-123");
            assert!(output.success == Some(true));
        }
        other => panic!("expected FunctionCallOutput, got {other:?}"),
    }
}

#[test]
fn tool_exec_output_failure_sets_success_false() {
    let output = ToolExecOutput {
        call_id: "call-456".to_string(),
        output: "error: not found".to_string(),
        exit_code: 1,
    };

    let item = output.into_response_input_item();
    match item {
        ResponseInputItem::FunctionCallOutput { output, .. } => {
            assert!(output.success == Some(false));
        }
        other => panic!("expected FunctionCallOutput, got {other:?}"),
    }
}

#[test]
fn tool_exec_output_body_is_exact_json() {
    let output = ToolExecOutput {
        call_id: "c".to_string(),
        output: "hello world".to_string(),
        exit_code: 0,
    };
    match output.into_response_input_item() {
        ResponseInputItem::FunctionCallOutput { output, .. } => assert_eq!(
            output.body,
            r#"{"metadata":{"duration_seconds":0.0,"exit_code":0},"output":"hello world"}"#
        ),
        other => panic!("expected FunctionCallOutput, got {other:?}"),
    }
}

#[test]
fn tool_output_body_escapes_and_signs() {
    assert_eq!(
        tool_output_body_text("say \"hi\"\n", -2),
        "{\"metadata\":{\"duration_seconds\":0.0,\"exit_code\":-2},\"output\":\"say \\\"hi\\\"\\n\"}"
    );
    assert_eq!(
        tool_output_body_text("", i32::MIN),
        "{\"metadata\":{\"duration_seconds\":0.0,\"exit_code\":-2147483648},\"output\":\"\"}"
    );
}

#[test]
fn events_reply_frames_encoded_events() {
    let encoded = strings(&[r#"{"id":"a"}"#, "b"]);
    assert_eq!(
        events_reply_text(&encoded, 7),
        r#"{"events":["{\"id\":\"a\"}","b"],"watermark":7}"#
    );
    assert_eq!(events_reply_text(&Vec::new(), 0), r#"{"events":[],"watermark":0}"#);
}

#[test]
fn pending_approval_decision_lifecycle() {
    let mut pa = PendingApproval { call_id: "call-abc".to_string(), decision: None };

    assert!(pa.decision.is_none(), "initially no decision");

    pa.decision = Some(true);
    assert_eq!(pa.decision, Some(true));
}

#[test]
fn approval_policy_defaults_to_on_request() {
    assert_eq!(AskForApproval::default(), AskForApproval::OnRequest);
}

#[test]
fn buffer_event_sink_collects_and_drains() {
    let mut sink = BufferEventSink::new();
    assert!(sink.is_empty());

    let event = turn_started("test-1", "turn-0");
    sink.emit_event_sync(event.clone());
    sink.emit_event_sync(event.clone());

    assert_eq!(sink.len(), 2);

    let drained = sink.drain();
    assert_eq!(drained.len(), 2);
    assert!(sink.is_empty(), "drain should clear the buffer");
}

#[test]
fn buffer_event_sink_events_since_returns_subset() {
    let mut sink = BufferEventSink::new();
    for i in 0..3 {
        sink.emit_event_sync(turn_started(&format!("ev-{i}"), &format!("turn-{i}")));
    }

    let (events, watermark) = sink.events_since(0);
    assert_eq!(events.len(), 3);
    assert_eq!(watermark, 3);

    let (events, watermark) = sink.events_since(2);
    assert_eq!(events.len(), 1);
    assert_eq!(watermark, 3);
    assert_eq!(events[0].id, "ev-2");

    let (events, watermark) = sink.events_since(3);
    assert!(events.is_empty());
    assert_eq!(watermark, 3);

    let (events, watermark) = sink.events_since(100);
    assert!(events.is_empty());
    assert_eq!(watermark, 3);

    let (events, _) = sink.events_since(0);
    for event in &events {
        assert!(event.id.starts_with("ev-"));
    }
}

#[test]
fn buffer_event_sink_emit_event_sync_works() {
    let mut sink = BufferEventSink::new();

    sink.emit_event_sync(Event { id: "sync-1".to_string(), msg: EventMsg::ShutdownComplete });

    assert_eq!(sink.len(), 1);

    let (events, watermark) = sink.events_since(0);
    assert_eq!(events.len(), 1);
    assert_eq!(watermark, 1);
}

#[test]
fn events_since_on_empty_buffer() {
    let sink = BufferEventSink::new();
    let (events, watermark) = sink.events_since(0);
    assert!(events.is_empty());
    assert_eq!(watermark, 0);
}

#[test]
fn in_memory_storage_saves_and_reads() {
    let mut storage = InMemoryStorage::new();

    assert!(storage.items().is_empty());

    let item = RolloutItem::Compacted { message: "test".to_string() };
    storage.save(&[item.clone()]);

    assert_eq!(storage.items().len(), 1);

    storage.save(&[item.clone(), item.clone()]);
    assert_eq!(storage.items().len(), 3);
}

#[test]
fn is_known_safe_command_classifies_read_only_commands() {
    assert!(is_known_safe_command(&strings(&["ls"])));
    assert!(is_known_safe_command(&strings(&["cat", "foo.txt"])));
    assert!(is_known_safe_command(&strings(&["pwd"])));
    assert!(is_known_safe_command(&strings(&["whoami"])));

    assert!(!is_known_safe_command(&strings(&["rm", "-rf", "/"])));
    assert!(!is_known_safe_command(&strings(&["curl", "https://example.com"])));
    assert!(!is_known_safe_command(&strings(&["python", "script.py"])));
}

#[test]
fn empty_command_is_not_safe() {
    assert!(!is_known_safe_command(&Vec::new()));
}

#[test]
fn approval_needed_per_policy() {
    let ls = strings(&["ls"]);
    let rm = strings(&["rm", "-rf", "/"]);
    assert!(!needs_approval(AskForApproval::Never, &rm));
    assert!(!needs_approval(AskForApproval::UnlessTrusted, &ls));
    assert!(needs_approval(AskForApproval::UnlessTrusted, &rm));
    assert!(needs_approval(AskForApproval::OnRequest, &ls));
    assert!(needs_approval(AskForApproval::OnFailure, &ls));
}

#[test]
fn approval_command_reads_command_array() {
    assert_eq!(
        approval_command(r#"{"command":["echo","hello world"]}"#),
        strings(&["echo", "hello world"])
    );
}

#[test]
fn approval_command_falls_back_to_raw_arguments() {
    assert_eq!(approval_command("not json"), strings(&["not json"]));
    assert_eq!(approval_command(r#"{"cmd":["ls"]}"#), strings(&[r#"{"cmd":["ls"]}"#]));
    assert_eq!(approval_command(r#"{"command":["ls",1]}"#), strings(&[r#"{"command":["ls",1]}"#]));
}

#[test]
fn command_or_raw_uses_parsed_vector() {
    assert_eq!(command_or_raw(Some(strings(&["a", "b"])), "x"), strings(&["a", "b"]));
    assert_eq!(command_or_raw(None, "x"), strings(&["x"]));
}

#[test]
fn denied_response_reports_denial() {
    match denied_response("call-9".to_string()) {
        ResponseInputItem::FunctionCallOutput { call_id, output } => {
            assert_eq!(call_id, "call-9");
            assert_eq!(output.success, Some(false));
            assert_eq!(
                output.body,
                r#"{"metadata":{"duration_seconds":0.0,"exit_code":1},"output":"Tool execution was denied by the user."}"#
            );
        }
        other => panic!("expected FunctionCallOutput, got {other:?}"),
    }
}

#[test]
fn review_decisions_normalize() {
    assert!(normalize_decision(&ReviewDecision::Approved));
    assert!(normalize_decision(&ReviewDecision::ApprovedForSession));
    assert!(normalize_decision(&ReviewDecision::ApprovedExecpolicyAmendment {
        amendment: strings(&["ls"])
    }));
    assert!(!normalize_decision(&ReviewDecision::Denied));
    assert!(!normalize_decision(&ReviewDecision::Abort));
}

#[test]
fn status_retry_classification() {
    assert_eq!(classify_status(500), Retry::Retryable);
    assert_eq!(classify_status(503), Retry::Retryable);
    assert_eq!(classify_status(429), Retry::Retryable);
    assert_eq!(classify_status(400), Retry::NonRetryable);
    assert_eq!(classify_status(404), Retry::NonRetryable);
}

#[test]
fn stderr_is_appended_after_separator() {
    assert_eq!(compose_output("out", ""), "out");
    assert_eq!(compose_output("out", "err"), "out\n--- stderr ---\nerr");
}

#[test]
fn registry_results_become_exec_outputs() {
    let ok = ResponseInputItem::FunctionCallOutput {
        call_id: "c".to_string(),
        output: FunctionCallOutputPayload { body: "done".to_string(), success: Some(false) },
    };
    assert_eq!(extract_tool_output(&ok), ("done".to_string(), 1));
    let unknown = ResponseInputItem::FunctionCallOutput {
        call_id: "c".to_string(),
        output: FunctionCallOutputPayload { body: "x".to_string(), success: None },
    };
    assert_eq!(extract_tool_output(&unknown), ("x".to_string(), 0));
    let custom =
        ResponseInputItem::CustomToolCallOutput { call_id: "c".to_string(), output: "y".to_string() };
    assert_eq!(extract_tool_output(&custom), ("y".to_string(), 0));

    let failed = tool_exec_result("c1".to_string(), Err("unsupported call".to_string()));
    assert_eq!(failed.call_id, "c1");
    assert_eq!(failed.output, "tool dispatch error: unsupported call");
    assert_eq!(failed.exit_code, 1);
}

#[test]
fn response_item_copy_keeps_fields() {
    let item = ResponseItem::FunctionCall {
        name: "shell".to_string(),
        call_id: "c".to_string(),
        arguments: "{}".to_string(),
    };
    match item.copy() {
        ResponseItem::FunctionCall { name, call_id, arguments } => {
            assert_eq!((name.as_str(), call_id.as_str(), arguments.as_str()), ("shell", "c", "{}"));
        }
        other => panic!("unexpected {other:?}"),
    }
}

#[test]
fn configuration_values_select_policy_and_search() {
    assert_eq!(parse_approval_policy("never"), AskForApproval::Never);
    assert_eq!(parse_approval_policy("untrusted"), AskForApproval::UnlessTrusted);
    assert_eq!(parse_approval_policy("on-failure"), AskForApproval::OnFailure);
    assert_eq!(parse_approval_policy("on-request"), AskForApproval::OnRequest);
    assert_eq!(parse_approval_policy(""), AskForApproval::OnRequest);
    assert_eq!(parse_web_search_mode("live"), Some(WebSearchMode::Live));
    assert_eq!(parse_web_search_mode("cached"), Some(WebSearchMode::Cached));
    assert_eq!(parse_web_search_mode("disabled"), None);
    assert_eq!(parse_web_search_mode("other"), None);
}

#[test]
fn tool_output_frame_is_exact() {
    assert_eq!(
        frame_tool_output("\"x\"", 3),
        r#"{"metadata":{"duration_seconds":0.0,"exit_code":3},"output":"x"}"#
    );
}

#[test]
fn events_reply_frame_is_exact() {
    assert_eq!(
        frame_events_reply(&strings(&["\"a\"", "\"b\""]), 2),
        r#"{"events":["a","b"],"watermark":2}"#
    );
    assert_eq!(frame_events_reply(&Vec::new(), 12), r#"{"events":[],"watermark":12}"#);
}
