use acp_engine::events::EngineEvent;
use acp_engine::history::{default_history, history_dir, history_path};
use acp_engine::launch::{
    effective_copilot_bin, interpret_handshake, interpret_probe, parse_copilot_args,
    HandshakeOutcome, ProbeOutcome,
};
use acp_engine::outbound::{
    initialize_params, request_envelope, session_new_params, user_prompt_params, JsonOut,
};
use acp_engine::text::{is_blank, parse_u64, str_eq, trim_ws};
use acp_engine::wire::{error_is_method_not_found, extract_session_id, has_error_field};
use acp_engine::util::{acp_only_error, build_commit_message_prompt, commit_prompt_for_diff, now_millis};

fn table_get<'a>(o: &'a JsonOut, key: &str) -> &'a JsonOut {
    match o {
        JsonOut::Table(fields) => {
            for (name, value) in fields {
                if name == key {
                    return value;
                }
            }
            panic!("missing field {}", key)
        }
        other => panic!("expected an object, got {:?}", other),
    }
}

#[test]
fn parse_u64_accepts_decimal_and_plus() {
    assert_eq!(parse_u64("0"), Some(0));
    assert_eq!(parse_u64("123"), Some(123));
    assert_eq!(parse_u64("+42"), Some(42));
    assert_eq!(parse_u64("18446744073709551615"), Some(u64::MAX));
}

#[test]
fn parse_u64_rejects_bad_shapes() {
    assert_eq!(parse_u64(""), None);
    assert_eq!(parse_u64("+"), None);
    assert_eq!(parse_u64("12a"), None);
    assert_eq!(parse_u64("-3"), None);
    assert_eq!(parse_u64(" 7"), None);
    assert_eq!(parse_u64("18446744073709551616"), None);
}

#[test]
fn trimming_and_blankness() {
    assert_eq!(trim_ws("  a b \t"), "a b");
    assert_eq!(trim_ws("\r\n"), "");
    assert_eq!(trim_ws("x"), "x");
    assert!(is_blank(""));
    assert!(is_blank(" \t\r\n"));
    assert!(!is_blank(" x "));
    assert!(str_eq("abc", "abc"));
    assert!(!str_eq("abc", "abd"));
    assert!(!str_eq("abc", "ab"));
}

#[test]
fn copilot_args_are_shell_tokenized() {
    assert_eq!(parse_copilot_args(None).unwrap(), Vec::<String>::new());
    assert_eq!(parse_copilot_args(Some("   ")).unwrap(), Vec::<String>::new());
    assert_eq!(
        parse_copilot_args(Some("  --flag \"two words\"  ")).unwrap(),
        vec![String::from("--flag"), String::from("two words")]
    );
    assert_eq!(
        parse_copilot_args(Some("a '' b")).unwrap(),
        vec![String::from("a"), String::from("b")],
        "empty tokens are dropped"
    );
    let err = parse_copilot_args(Some("\"unterminated")).unwrap_err();
    assert!(err.starts_with("Invalid Copilot args: "), "got: {}", err);
}

#[test]
fn effective_bin_falls_back_to_default() {
    assert_eq!(effective_copilot_bin(None), "copilot");
    assert_eq!(effective_copilot_bin(Some("  ")), "copilot");
    assert_eq!(effective_copilot_bin(Some("/usr/bin/copilot")), "/usr/bin/copilot");
}

#[test]
fn probe_failures_have_distinct_messages() {
    let not_found = interpret_probe(ProbeOutcome::NotFound).unwrap_err();
    assert_eq!(
        not_found,
        "Copilot CLI not found. Install Copilot CLI and ensure `copilot` is on your PATH."
    );
    let timed_out = interpret_probe(ProbeOutcome::TimedOut).unwrap_err();
    assert_eq!(
        timed_out,
        "Timed out while checking Copilot CLI. Make sure `copilot --version` runs in Terminal."
    );
    assert_ne!(not_found, timed_out, "a missing binary is not a timeout");
    let launch = interpret_probe(ProbeOutcome::LaunchFailed(String::from("no permission")));
    assert_eq!(launch.unwrap_err(), "no permission");
}

#[test]
fn probe_completion_is_interpreted() {
    let failed = interpret_probe(ProbeOutcome::Finished {
        success: false,
        out_text: String::new(),
        err_text: String::from(" broken install \n"),
    });
    assert_eq!(
        failed.unwrap_err(),
        "Copilot CLI failed to start: broken install. Try running `copilot --version` in Terminal."
    );
    let silent = interpret_probe(ProbeOutcome::Finished {
        success: false,
        out_text: String::new(),
        err_text: String::new(),
    });
    assert_eq!(
        silent.unwrap_err(),
        "Copilot CLI failed to start. Try running `copilot --version` in Terminal."
    );
    let versioned = interpret_probe(ProbeOutcome::Finished {
        success: true,
        out_text: String::from("  1.2.3\n"),
        err_text: String::new(),
    });
    assert_eq!(versioned.unwrap(), Some(String::from("1.2.3")));
    let quiet = interpret_probe(ProbeOutcome::Finished {
        success: true,
        out_text: String::from("  \n"),
        err_text: String::new(),
    });
    assert_eq!(quiet.unwrap(), None);
}

#[test]
fn handshake_outcomes_are_interpreted() {
    let timed_out = interpret_handshake(HandshakeOutcome::TimedOut).unwrap_err();
    assert_eq!(
        timed_out,
        "Copilot ACP did not respond to initialize. Check that `copilot --acp --stdio` works in Terminal."
    );
    let canceled =
        interpret_handshake(HandshakeOutcome::RequestFailed(String::from("request canceled")));
    assert_eq!(canceled.unwrap_err(), "request canceled");

    let rejected: serde_json::Value =
        serde_json::from_str("{\"error\":{\"code\":-1}}").unwrap();
    let rendered = rejected.to_string();
    let err = interpret_handshake(HandshakeOutcome::Responded(rejected)).unwrap_err();
    assert_eq!(err, format!("Copilot ACP initialize failed: {}", rendered));

    let accepted: serde_json::Value =
        serde_json::from_str("{\"result\":{\"protocolVersion\":1}}").unwrap();
    let ok = interpret_handshake(HandshakeOutcome::Responded(accepted)).unwrap();
    assert_eq!(ok, EngineEvent::Connected);
}

#[test]
fn outbound_documents_have_the_wire_shape() {
    let env = request_envelope(7, "session/new", session_new_params("/work"));
    assert_eq!(table_get(&env, "jsonrpc"), &JsonOut::Text(String::from("2.0")));
    assert_eq!(table_get(&env, "id"), &JsonOut::Num(7));
    assert_eq!(table_get(&env, "method"), &JsonOut::Text(String::from("session/new")));
    let params = table_get(&env, "params");
    assert_eq!(table_get(params, "cwd"), &JsonOut::Text(String::from("/work")));
    assert_eq!(table_get(params, "mcpServers"), &JsonOut::List(Vec::new()));

    let init = initialize_params("9.9.9");
    assert_eq!(table_get(&init, "protocolVersion"), &JsonOut::Num(1));
    let caps = table_get(&init, "clientCapabilities");
    assert_eq!(table_get(table_get(caps, "fs"), "readTextFile"), &JsonOut::Flag(true));
    assert_eq!(table_get(caps, "terminal"), &JsonOut::Flag(true));
    let info = table_get(&init, "clientInfo");
    assert_eq!(table_get(info, "name"), &JsonOut::Text(String::from("codex_monitor")));
    assert_eq!(table_get(info, "version"), &JsonOut::Text(String::from("9.9.9")));
}

#[test]
fn user_prompt_is_trimmed_or_rejected() {
    let err = user_prompt_params("T", "   \n").unwrap_err();
    assert_eq!(err, "empty user message");

    let params = user_prompt_params("T", "  hello there \n").unwrap();
    assert_eq!(table_get(&params, "sessionId"), &JsonOut::Text(String::from("T")));
    match table_get(&params, "prompt") {
        JsonOut::List(blocks) => {
            assert_eq!(blocks.len(), 1);
            assert_eq!(table_get(&blocks[0], "type"), &JsonOut::Text(String::from("text")));
            assert_eq!(
                table_get(&blocks[0], "text"),
                &JsonOut::Text(String::from("hello there"))
            );
        }
        other => panic!("expected a list of blocks, got {:?}", other),
    }
}

#[test]
fn capability_rejection_text() {
    assert_eq!(
        acp_only_error("fork_thread"),
        "fork_thread is not supported with the Copilot ACP backend."
    );
}

#[test]
fn commit_prompt_wraps_the_diff() {
    let prompt = build_commit_message_prompt("diff --git a b");
    assert!(prompt.starts_with("Generate a concise git commit message"));
    assert!(prompt.ends_with("Changes:\ndiff --git a b"));
}

#[test]
fn clock_reads_milliseconds() {
    // a coarse sanity bound: later than 2020, as milliseconds
    assert!(now_millis() > 1_577_836_800_000);
}

#[test]
fn history_locations_sit_beside_the_storage_file() {
    assert_eq!(history_dir("/data/app/storage.json"), "/data/app/threads");
    assert_eq!(history_dir("storage.json"), "threads");
    assert_eq!(history_dir("/storage.json"), "/threads");
    assert_eq!(
        history_path("/data/app/storage.json", "ws-1"),
        "/data/app/threads/ws-1.json"
    );
}

#[test]
fn default_history_document_shape() {
    let doc = default_history("ws-9", 1234);
    assert_eq!(table_get(&doc, "version"), &JsonOut::Num(1));
    assert_eq!(table_get(&doc, "workspaceId"), &JsonOut::Text(String::from("ws-9")));
    assert_eq!(table_get(&doc, "threads"), &JsonOut::List(Vec::new()));
    assert_eq!(table_get(&doc, "itemsByThread"), &JsonOut::Table(Vec::new()));
    assert_eq!(table_get(&doc, "threadParentById"), &JsonOut::Table(Vec::new()));
    assert_eq!(table_get(&doc, "activeThreadId"), &JsonOut::Null);
    assert_eq!(table_get(&doc, "savedAt"), &JsonOut::Num(1234));
}

#[test]
fn blank_diff_is_rejected() {
    assert_eq!(
        commit_prompt_for_diff("  \n").unwrap_err(),
        "No changes to generate commit message for"
    );
    let ok = commit_prompt_for_diff("+line").unwrap();
    assert_eq!(ok, build_commit_message_prompt("+line"));
}

#[test]
fn session_identifier_is_read_from_result_or_top_level() {
    let nested: serde_json::Value =
        serde_json::from_str("{\"result\":{\"sessionId\":\"s-1\"}}").unwrap();
    assert_eq!(extract_session_id(&nested), Some(String::from("s-1")));
    let flat: serde_json::Value = serde_json::from_str("{\"sessionId\":\"s-2\"}").unwrap();
    assert_eq!(extract_session_id(&flat), Some(String::from("s-2")));
    let none: serde_json::Value = serde_json::from_str("{\"result\":{}}").unwrap();
    assert_eq!(extract_session_id(&none), None);
    let wrong_kind: serde_json::Value =
        serde_json::from_str("{\"result\":{\"sessionId\":7}}").unwrap();
    assert_eq!(extract_session_id(&wrong_kind), None);
}

#[test]
fn method_not_found_rejections_are_recognized() {
    let unknown: serde_json::Value = serde_json::from_str(
        "{\"error\":{\"code\":-32601,\"data\":{\"method\":\"account/read\"}}}",
    )
    .unwrap();
    assert!(has_error_field(&unknown));
    assert!(error_is_method_not_found(&unknown, "account/read"));
    assert!(!error_is_method_not_found(&unknown, "session/new"));

    let other_code: serde_json::Value = serde_json::from_str(
        "{\"error\":{\"code\":-32000,\"data\":{\"method\":\"account/read\"}}}",
    )
    .unwrap();
    assert!(!error_is_method_not_found(&other_code, "account/read"));

    let clean: serde_json::Value = serde_json::from_str("{\"result\":{}}").unwrap();
    assert!(!has_error_field(&clean));
    assert!(!error_is_method_not_found(&clean, "account/read"));
}
