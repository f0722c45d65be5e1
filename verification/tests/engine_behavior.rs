use acp_engine::engine::{stderr_event, SessionCore};
use acp_engine::events::EngineEvent;
use tokio::sync::oneshot::error::TryRecvError;

fn delta_line(thread: &str, text: &str) -> String {
    let mut line = String::from(
        "{\"method\":\"session/update\",\"params\":{\"sessionId\":\"",
    );
    line.push_str(thread);
    line.push_str(
        "\",\"update\":{\"sessionUpdate\":\"agent_message_chunk\",\"content\":{\"type\":\"text\",\"text\":\"",
    );
    line.push_str(text);
    line.push_str("\"}}}}");
    line
}

#[test]
fn response_resolves_matching_slot_only() {
    let mut core = SessionCore::new();
    let (tx1, mut rx1) = tokio::sync::oneshot::channel();
    let (tx2, mut rx2) = tokio::sync::oneshot::channel();
    let id1 = core.register_request(tx1);
    let id2 = core.register_request(tx2);
    assert_eq!(id1, 1);
    assert_eq!(id2, 2);

    let evs = core.handle_stdout_line("{\"id\":2,\"result\":{\"ok\":true}}");
    assert!(evs.is_empty());

    let got = rx2.try_recv().expect("second caller should have its response");
    assert_eq!(
        got.get("result").and_then(|r| r.get("ok")).and_then(|v| v.as_bool()),
        Some(true)
    );
    assert!(rx1.try_recv().is_err(), "first caller must still be waiting");
}

#[test]
fn response_with_string_identifier_resolves() {
    let mut core = SessionCore::new();
    let (tx, mut rx) = tokio::sync::oneshot::channel();
    let id = core.register_request(tx);
    assert_eq!(id, 1);
    let evs = core.handle_stdout_line("{\"id\":\"1\",\"error\":{\"code\":-1}}");
    assert!(evs.is_empty());
    let got = rx.try_recv().expect("string identifier should match");
    assert!(got.get("error").is_some());
}

#[test]
fn drain_cancels_all_outstanding_requests() {
    let mut core = SessionCore::new();
    let (tx1, mut rx1) = tokio::sync::oneshot::channel();
    let (tx2, mut rx2) = tokio::sync::oneshot::channel();
    let (tx3, mut rx3) = tokio::sync::oneshot::channel();
    core.register_request(tx1);
    core.register_request(tx2);
    core.register_request(tx3);

    let slots = core.drain_pending();
    assert_eq!(slots.len(), 3);
    drop(slots);

    assert!(matches!(rx1.try_recv(), Err(TryRecvError::Closed)));
    assert!(matches!(rx2.try_recv(), Err(TryRecvError::Closed)));
    assert!(matches!(rx3.try_recv(), Err(TryRecvError::Closed)));
}

#[test]
fn begin_twice_is_usage_error_and_keeps_state() {
    let mut core = SessionCore::new();
    let (turn_id, started) = core.begin_prompt("T").expect("first begin succeeds");
    match started {
        EngineEvent::TurnStarted { thread_id, turn_id: ev_turn } => {
            assert_eq!(thread_id, "T");
            assert_eq!(ev_turn, turn_id);
        }
        other => panic!("expected a turn-started event, got {:?}", other),
    }

    let second = core.begin_prompt("T");
    assert_eq!(second.unwrap_err(), "prompt already in progress");

    // the existing prompt state is untouched: finishing still closes the
    // first turn
    let evs = core.finish_prompt("T");
    assert_eq!(evs.len(), 2);
    match &evs[1] {
        EngineEvent::TurnCompleted { thread_id, turn_id: done_turn } => {
            assert_eq!(thread_id, "T");
            assert_eq!(done_turn, &turn_id);
        }
        other => panic!("expected a turn-completed event, got {:?}", other),
    }
}

#[test]
fn stream_assembly_yields_ordered_events() {
    let mut core = SessionCore::new();
    let (turn_id, started) = core.begin_prompt("T").expect("begin succeeds");
    assert!(matches!(started, EngineEvent::TurnStarted { .. }));

    let evs1 = core.handle_stdout_line(&delta_line("T", "ab"));
    let evs2 = core.handle_stdout_line(&delta_line("T", "cd"));
    assert_eq!(evs1.len(), 1);
    assert_eq!(evs2.len(), 1);
    let item1 = match &evs1[0] {
        EngineEvent::MessageDelta { thread_id, item_id, delta } => {
            assert_eq!(thread_id, "T");
            assert_eq!(delta, "ab");
            item_id.clone()
        }
        other => panic!("expected a delta event, got {:?}", other),
    };
    match &evs2[0] {
        EngineEvent::MessageDelta { thread_id, item_id, delta } => {
            assert_eq!(thread_id, "T");
            assert_eq!(delta, "cd");
            assert_eq!(item_id, &item1, "both deltas carry one message identifier");
        }
        other => panic!("expected a delta event, got {:?}", other),
    }

    let done = core.finish_prompt("T");
    assert_eq!(done.len(), 2);
    assert_eq!(
        done[0],
        EngineEvent::MessageCompleted {
            thread_id: String::from("T"),
            item_id: item1,
            text: String::from("abcd"),
        }
    );
    assert_eq!(
        done[1],
        EngineEvent::TurnCompleted { thread_id: String::from("T"), turn_id }
    );

    // afterwards the thread has no prompt state: both closers are no-ops
    assert!(core.finish_prompt("T").is_empty());
    core.clear_prompt("T");
    assert!(core.begin_prompt("T").is_ok());
}

#[test]
fn clear_after_begin_emits_no_completion() {
    let mut core = SessionCore::new();
    core.begin_prompt("T").expect("begin succeeds");
    let evs = core.handle_stdout_line(&delta_line("T", "partial"));
    assert_eq!(evs.len(), 1);

    core.clear_prompt("T");
    // no completion events exist; the thread is idle again
    assert!(core.finish_prompt("T").is_empty());
    assert!(core.begin_prompt("T").is_ok());
}

#[test]
fn invalid_json_line_reports_once_and_loop_survives() {
    let mut core = SessionCore::new();
    core.begin_prompt("T").expect("begin succeeds");

    let evs = core.handle_stdout_line("this is not json");
    assert_eq!(evs.len(), 1);
    match &evs[0] {
        EngineEvent::ParseError { raw, error } => {
            assert_eq!(raw, "this is not json");
            assert!(!error.is_empty());
        }
        other => panic!("expected a parse-error event, got {:?}", other),
    }

    // the next valid line is still processed
    let evs = core.handle_stdout_line(&delta_line("T", "still alive"));
    assert_eq!(evs.len(), 1);
    assert!(matches!(&evs[0], EngineEvent::MessageDelta { .. }));
}

#[test]
fn unknown_response_identifier_is_dropped_quietly() {
    let mut core = SessionCore::new();
    let (tx, mut rx) = tokio::sync::oneshot::channel();
    core.register_request(tx);

    let evs = core.handle_stdout_line("{\"id\":99,\"result\":{}}");
    assert!(evs.is_empty());

    // the other pending request is unaffected and still resolvable
    let evs = core.handle_stdout_line("{\"id\":1,\"result\":{}}");
    assert!(evs.is_empty());
    assert!(rx.try_recv().is_ok());
}

#[test]
fn blank_and_unmatched_lines_do_nothing() {
    let mut core = SessionCore::new();
    assert!(core.handle_stdout_line("").is_empty());
    assert!(core.handle_stdout_line("   \t ").is_empty());
    // a notification of another method
    assert!(core.handle_stdout_line("{\"method\":\"something/else\",\"params\":{}}").is_empty());
    // a response shape with an unreadable identifier falls through quietly
    assert!(core.handle_stdout_line("{\"id\":true,\"result\":{}}").is_empty());
    // an identifier without result or error is not a response
    assert!(core.handle_stdout_line("{\"id\":1,\"method\":\"peer/request\",\"params\":{}}").is_empty());
}

#[test]
fn delta_for_unknown_thread_is_ignored() {
    let mut core = SessionCore::new();
    let evs = core.handle_stdout_line(&delta_line("nobody", "text"));
    assert!(evs.is_empty());
}

#[test]
fn delta_with_empty_text_or_wrong_shape_is_ignored() {
    let mut core = SessionCore::new();
    core.begin_prompt("T").expect("begin succeeds");
    assert!(core.handle_stdout_line(&delta_line("T", "")).is_empty());
    let wrong_kind = "{\"method\":\"session/update\",\"params\":{\"sessionId\":\"T\",\"update\":{\"sessionUpdate\":\"other_kind\",\"content\":{\"type\":\"text\",\"text\":\"x\"}}}}";
    assert!(core.handle_stdout_line(wrong_kind).is_empty());
    let wrong_type = "{\"method\":\"session/update\",\"params\":{\"sessionId\":\"T\",\"update\":{\"sessionUpdate\":\"agent_message_chunk\",\"content\":{\"type\":\"image\",\"text\":\"x\"}}}}";
    assert!(core.handle_stdout_line(wrong_type).is_empty());
    // nothing was accumulated
    let done = core.finish_prompt("T");
    assert_eq!(
        match &done[0] {
            EngineEvent::MessageCompleted { text, .. } => text.as_str(),
            other => panic!("expected a message-completed event, got {:?}", other),
        },
        ""
    );
}

#[test]
fn stderr_lines_become_diagnostics() {
    assert_eq!(stderr_event("   "), None);
    assert_eq!(
        stderr_event("warning: low disk"),
        Some(EngineEvent::StderrLine { message: String::from("warning: low disk") })
    );
}

#[test]
fn threads_assemble_independently() {
    let mut core = SessionCore::new();
    core.begin_prompt("A").expect("begin A");
    core.begin_prompt("B").expect("begin B");
    core.handle_stdout_line(&delta_line("A", "first"));
    core.handle_stdout_line(&delta_line("B", "second"));

    let done_b = core.finish_prompt("B");
    match &done_b[0] {
        EngineEvent::MessageCompleted { thread_id, text, .. } => {
            assert_eq!(thread_id, "B");
            assert_eq!(text, "second");
        }
        other => panic!("expected a message-completed event, got {:?}", other),
    }

    let done_a = core.finish_prompt("A");
    match &done_a[0] {
        EngineEvent::MessageCompleted { thread_id, text, .. } => {
            assert_eq!(thread_id, "A");
            assert_eq!(text, "first");
        }
        other => panic!("expected a message-completed event, got {:?}", other),
    }
}
