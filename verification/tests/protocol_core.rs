//! Tests driving the framing layer and the control-protocol engine through
//! complete scenarios.

use claude_agent_sdk::engine::{
    interrupt_body, set_permission_mode_body, user_prompt_frame, Engine, StepAction,
};
use claude_agent_sdk::framing::{Framer, FrameStep};
use claude_agent_sdk::types::PermissionResult;
use claude_agent_sdk::ClaudeSDKError;

fn val(text: &str) -> serde_json::Value {
    serde_json::from_str(text).unwrap()
}

#[test]
fn deny_decision_builds_error_payload_reply() {
    let mut engine = Engine::new(true, true, "sfx".to_string());
    let frame = val(
        r#"{"type":"control_request","request_id":"r1","request":{"subtype":"can_use_tool","tool_name":"Bash","input":{}}}"#,
    );
    match engine.handle_frame(frame) {
        StepAction::Ask {
            request_id,
            tool_name,
            input,
            context,
        } => {
            assert_eq!(request_id, "r1");
            assert_eq!(tool_name, "Bash");
            assert!(input.is_object());
            assert!(context.suggestions.is_empty());
            let line = engine.permission_reply(
                &request_id,
                PermissionResult::Deny {
                    message: "no".to_string(),
                    interrupt: false,
                },
            );
            let reply = val(&line);
            let expected = val(
                r#"{"type":"control_response","response":{"subtype":"success","request_id":"r1","response":{"allow":false,"reason":"no"}}}"#,
            );
            assert_eq!(reply, expected);
        }
        _ => panic!("expected a permission question"),
    }
}

#[test]
fn allow_decision_with_replacement_input() {
    let engine = Engine::new(true, true, "sfx".to_string());
    let line = engine.permission_reply(
        "r9",
        PermissionResult::Allow {
            updated_input: Some(val(r#"{"file_path":"/other.txt"}"#)),
            updated_permissions: None,
        },
    );
    let reply = val(&line);
    assert_eq!(reply["response"]["response"]["allow"], true);
    assert_eq!(reply["response"]["response"]["input"]["file_path"], "/other.txt");
}

#[test]
fn missing_permission_callback_yields_error_reply() {
    let mut engine = Engine::new(true, false, "sfx".to_string());
    let frame = val(
        r#"{"type":"control_request","request_id":"r2","request":{"subtype":"can_use_tool","tool_name":"Bash","input":{}}}"#,
    );
    match engine.handle_frame(frame) {
        StepAction::Reply(line) => {
            let reply = val(&line);
            assert_eq!(reply["response"]["subtype"], "error");
            assert_eq!(reply["response"]["request_id"], "r2");
            assert_eq!(reply["response"]["error"], "can_use_tool callback not provided");
        }
        _ => panic!("expected an immediate error reply"),
    }
    // the read loop goes on: an ordinary frame is still delivered
    let ordinary = val(r#"{"type":"assistant","message":{}}"#);
    assert!(matches!(engine.handle_frame(ordinary), StepAction::Deliver(_)));
}

#[test]
fn unknown_subtype_is_answered_with_error() {
    let mut engine = Engine::new(true, true, "sfx".to_string());
    let frame = val(
        r#"{"type":"control_request","request_id":"r3","request":{"subtype":"mystery"}}"#,
    );
    match engine.handle_frame(frame) {
        StepAction::Reply(line) => {
            let reply = val(&line);
            assert_eq!(reply["response"]["subtype"], "error");
            assert_eq!(reply["response"]["error"], "Unknown request subtype: mystery");
        }
        _ => panic!("expected an error reply"),
    }
}

#[test]
fn ack_subtype_is_answered_with_null_success() {
    let mut engine = Engine::new(true, true, "sfx".to_string());
    let frame = val(
        r#"{"type":"control_request","request_id":"r4","request":{"subtype":"set_permission_mode","mode":"plan"}}"#,
    );
    match engine.handle_frame(frame) {
        StepAction::Reply(line) => {
            let reply = val(&line);
            assert_eq!(reply["response"]["subtype"], "success");
            assert_eq!(reply["response"]["request_id"], "r4");
            assert!(reply["response"]["response"].is_null());
        }
        _ => panic!("expected a success reply"),
    }
}

#[test]
fn interrupt_round_trip_clears_table_entry() {
    let mut engine = Engine::new(true, false, "nonce".to_string());
    let opened = engine.open_request(interrupt_body()).unwrap();
    let sent = val(&opened.line);
    assert_eq!(sent["type"], "control_request");
    assert_eq!(sent["request"]["subtype"], "interrupt");
    assert_eq!(sent["request_id"], opened.request_id.as_str());
    assert!(engine.is_pending(&opened.request_id));

    let response = val(&format!(
        r#"{{"type":"control_response","response":{{"subtype":"success","request_id":"{}","response":null}}}}"#,
        opened.request_id
    ));
    match engine.handle_frame(response) {
        StepAction::Resolve { request_id, outcome } => {
            assert_eq!(request_id, opened.request_id);
            assert!(outcome.unwrap().is_null());
        }
        _ => panic!("expected the pending request to resolve"),
    }
    assert!(!engine.is_pending(&opened.request_id));
}

#[test]
fn error_response_resolves_with_protocol_error() {
    let mut engine = Engine::new(true, false, "n".to_string());
    let opened = engine.open_request(set_permission_mode_body("plan")).unwrap();
    let response = val(&format!(
        r#"{{"type":"control_response","response":{{"subtype":"error","request_id":"{}","error":"mode rejected"}}}}"#,
        opened.request_id
    ));
    match engine.handle_frame(response) {
        StepAction::Resolve { request_id, outcome } => {
            assert_eq!(request_id, opened.request_id);
            match outcome {
                Err(ClaudeSDKError::ControlProtocol(m)) => assert_eq!(m, "mode rejected"),
                _ => panic!("expected a protocol error"),
            }
        }
        _ => panic!("expected the pending request to resolve"),
    }
    assert!(!engine.is_pending(&opened.request_id));
}

#[test]
fn unmatched_response_is_dropped_silently() {
    let mut engine = Engine::new(true, false, "n".to_string());
    let response = val(
        r#"{"type":"control_response","response":{"subtype":"success","request_id":"req_99_x","response":null}}"#,
    );
    assert!(matches!(engine.handle_frame(response), StepAction::Ignore));
}

#[test]
fn timeout_clears_entry_and_errors_once() {
    let mut engine = Engine::new(true, false, "n".to_string());
    let opened = engine.open_request(interrupt_body()).unwrap();
    assert!(engine.is_pending(&opened.request_id));
    match engine.on_timeout(&opened.request_id) {
        Err(ClaudeSDKError::Timeout(m)) => assert_eq!(m, "Control request timeout"),
        _ => panic!("expected the timeout error"),
    }
    assert!(!engine.is_pending(&opened.request_id));
    // a second expiry for the same id reports nothing: the error was
    // surfaced exactly once
    assert!(engine.on_timeout(&opened.request_id).is_ok());
}

#[test]
fn control_requests_require_streaming_mode() {
    let mut engine = Engine::new(false, false, "n".to_string());
    match engine.open_request(interrupt_body()) {
        Err(ClaudeSDKError::ControlProtocol(m)) => {
            assert_eq!(m, "Control requests require streaming mode");
        }
        _ => panic!("expected a protocol error"),
    }
}

#[test]
fn ordinary_messages_keep_arrival_order() {
    let mut engine = Engine::new(true, true, "n".to_string());
    let frames = vec![
        val(r#"{"type":"assistant","message":{"n":1}}"#),
        val(r#"{"type":"control_request","request_id":"r1","request":{"subtype":"interrupt"}}"#),
        val(r#"{"type":"user","message":{"n":2}}"#),
        val(r#"{"type":"control_response","response":{"subtype":"success","request_id":"gone","response":null}}"#),
        val(r#"{"type":"result","n":3}"#),
    ];
    let mut delivered: Vec<serde_json::Value> = Vec::new();
    for f in frames {
        if let StepAction::Deliver(v) = engine.handle_frame(f) {
            delivered.push(v);
        }
    }
    assert_eq!(delivered.len(), 3);
    assert_eq!(delivered[0]["type"], "assistant");
    assert_eq!(delivered[1]["type"], "user");
    assert_eq!(delivered[2]["type"], "result");
}

#[test]
fn framer_decodes_one_value_per_line() {
    let mut framer = Framer::new(1024 * 1024);
    match framer.push_line(br#"{"type":"user","n":1}"#) {
        FrameStep::Decoded(v) => assert_eq!(v["n"], 1),
        _ => panic!("expected a decoded frame"),
    }
    match framer.push_line(b"") {
        FrameStep::Quiet => {}
        _ => panic!("a blank line makes no frame"),
    }
    match framer.push_line(br#"  {"n":2}  "#) {
        FrameStep::Decoded(v) => assert_eq!(v["n"], 2),
        _ => panic!("expected a decoded frame"),
    }
}

#[test]
fn framer_joins_split_frames() {
    // the same frame, undivided and split at an arbitrary line boundary,
    // decodes to the same value
    let mut one = Framer::new(1024);
    let whole = match one.push_line(br#"{"a":[1,2,3]}"#) {
        FrameStep::Decoded(v) => v,
        _ => panic!("expected a decoded frame"),
    };

    let mut split = Framer::new(1024);
    assert!(matches!(split.push_line(br#"{"a":[1,"#), FrameStep::Quiet));
    match split.push_line(br#"2,3]}"#) {
        FrameStep::Decoded(v) => assert_eq!(v, whole),
        _ => panic!("expected the joined frame to decode"),
    }
}

#[test]
fn framer_reports_one_overflow_then_recovers() {
    // buffer limit 10 bytes; two malformed 6-byte lines arrive
    let mut framer = Framer::new(10);
    assert!(matches!(framer.push_line(b"zzzzzz"), FrameStep::Quiet));
    match framer.push_line(b"yyyyyy") {
        FrameStep::Overflow => {}
        _ => panic!("expected exactly one overflow"),
    }
    // framing resumes on the next valid line
    match framer.push_line(br#"{"k":1}"#) {
        FrameStep::Decoded(v) => assert_eq!(v["k"], 1),
        _ => panic!("expected framing to resume"),
    }
}

#[test]
fn user_prompt_frame_shape() {
    let line = user_prompt_frame("What is 2 + 2?");
    let v = val(&line);
    assert_eq!(v["type"], "user");
    assert_eq!(v["message"]["role"], "user");
    assert_eq!(v["message"]["content"], "What is 2 + 2?");
}
