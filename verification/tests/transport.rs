use org_cli::json::JsonValue;
use org_cli::mcp::transport::{message_line, read_reply};
use org_cli::mcp::error::McpError;
use org_cli::mcp::transport::{
    check_spawn_argv, effective_timeout, eof_error, frame_line, received_text, timeout_error, trim,
};

#[test]
fn zero_timeout_disables_the_gate() {
    assert_eq!(effective_timeout(Some(0)), None);
    assert_eq!(effective_timeout(None), None);
    assert_eq!(effective_timeout(Some(30)), Some(30));
}

#[test]
fn empty_server_command_is_spawn_error() {
    match check_spawn_argv(&vec![]).unwrap_err() {
        McpError::Spawn(m) => assert_eq!(m, "server command must not be empty"),
        other => panic!("expected a spawn error, got {:?}", other),
    }
    assert!(check_spawn_argv(&vec!["srv".to_string()]).is_ok());
}

#[test]
fn frames_end_with_newline() {
    assert_eq!(frame_line("{}".to_string()), "{}\n");
}

#[test]
fn transport_error_texts() {
    assert_eq!(eof_error().message(), "transport error: server closed stdout (EOF) without sending a response");
    assert_eq!(timeout_error(1).message(), "transport error: no response from server within 1s (timeout)");
    assert_eq!(timeout_error(1).exit_code(), 3);
}

#[test]
fn received_lines_are_trimmed() {
    assert_eq!(received_text("  {\"a\":1}\r\n").unwrap(), "{\"a\":1}");
    assert!(matches!(received_text(""), Err(McpError::Transport(_))));
    assert_eq!(received_text("\n").unwrap(), "");
    assert_eq!(trim("\t x y \u{a0}"), "x y");
}

#[test]
fn replies_are_read_as_json() {
    let v = read_reply("  {\"id\":1,\"result\":[true]}\n").unwrap();
    assert_eq!(
        v,
        JsonValue::Object(vec![
            ("id".to_string(), JsonValue::Int(1)),
            ("result".to_string(), JsonValue::Array(vec![JsonValue::Bool(true)])),
        ])
    );
    match read_reply("not json\n").unwrap_err() {
        McpError::Transport(m) => {
            assert!(m.starts_with("JSON parse error: expected"), "got {m}");
            assert!(m.ends_with(" (line: \"not json\")"), "got {m}");
        }
        other => panic!("expected a transport error, got {:?}", other),
    }
    match read_reply("").unwrap_err() {
        McpError::Transport(m) => assert_eq!(m, "server closed stdout (EOF) without sending a response"),
        other => panic!("expected a transport error, got {:?}", other),
    }
}

#[test]
fn messages_are_sent_as_single_lines() {
    let msg = JsonValue::Object(vec![
        ("method".to_string(), JsonValue::Str("a\nb".into())),
        ("id".to_string(), JsonValue::Int(2)),
    ]);
    assert_eq!(message_line(&msg), "{\"id\":2,\"method\":\"a\\nb\"}\n");
}
