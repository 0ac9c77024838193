use org_cli::json::JsonValue;
use org_cli::mcp::error::McpError;

fn all() -> Vec<McpError> {
    vec![
        McpError::ToolError { code: -32000, message: "m".into(), data: JsonValue::Null },
        McpError::Transport("t".into()),
        McpError::Spawn("s".into()),
        McpError::Protocol("p".into()),
    ]
}

#[test]
fn exit_codes_kinds_and_rpc_codes() {
    let expected = [(1, "tool", -32000), (3, "transport", -1), (4, "transport", -1), (3, "transport", -1)];
    for (e, (exit, kind, code)) in all().iter().zip(expected) {
        assert_eq!(e.exit_code(), exit);
        assert_eq!(e.kind_str(), kind);
        assert_eq!(e.rpc_code(), code);
    }
}

#[test]
fn error_messages() {
    let texts: Vec<String> = all().iter().map(|e| e.message()).collect();
    assert_eq!(
        texts,
        vec![
            "tool error -32000: m".to_string(),
            "transport error: t".to_string(),
            "spawn error: s".to_string(),
            "protocol error: p".to_string(),
        ]
    );
}
