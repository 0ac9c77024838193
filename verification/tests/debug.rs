use org_cli::json::JsonValue;
use org_cli::mcp::client::{check_response, id_mismatch_error};
use org_cli::mcp::error::McpError;
use serde_json::Value;

fn from_value(v: &Value) -> JsonValue {
    match v {
        Value::Null => JsonValue::Null,
        Value::Bool(b) => JsonValue::Bool(*b),
        Value::Number(n) => match n.as_i64() {
            Some(i) => JsonValue::Int(i),
            None => JsonValue::Num(n.to_string()),
        },
        Value::String(s) => JsonValue::Str(s.clone()),
        Value::Array(items) => JsonValue::Array(items.iter().map(from_value).collect()),
        Value::Object(m) => {
            JsonValue::Object(m.iter().map(|(k, v)| (k.clone(), from_value(v))).collect())
        }
    }
}

fn mismatch_text(id: JsonValue) -> String {
    let resp = JsonValue::Object(vec![("id".to_string(), id), ("result".to_string(), JsonValue::Null)]);
    match check_response(&resp, 7).unwrap_err() {
        McpError::Protocol(m) => m,
        other => panic!("expected a protocol error, got {:?}", other),
    }
}

#[test]
fn mismatched_ids_are_shown_as_serde_json_shows_them() {
    let samples = [
        "null",
        "true",
        "-42",
        "18446744073709551615",
        "1.5",
        r#""plain""#,
        r#""quote \" and \\ and \n tab \t""#,
        r#""\u0001 é""#,
        "[]",
        r#"[1, "x", [null]]"#,
        "{}",
        r#"{"b": {"c": [true]}, "a": "q\"uote"}"#,
    ];
    for text in samples {
        let v: Value = serde_json::from_str(text).unwrap();
        assert_eq!(
            mismatch_text(from_value(&v)),
            format!("response id {:?} does not match request id 7", v),
            "for {text}"
        );
    }
}

#[test]
fn mismatch_error_text() {
    match id_mismatch_error("Number(2)", 1) {
        McpError::Protocol(m) => assert_eq!(m, "response id Number(2) does not match request id 1"),
        other => panic!("expected a protocol error, got {:?}", other),
    }
}

#[test]
fn mismatched_container_ids_are_shown_in_full() {
    let resp = JsonValue::Object(vec![
        ("id".to_string(), JsonValue::Array(vec![JsonValue::Int(1), JsonValue::Str("x".into())])),
        ("result".to_string(), JsonValue::Null),
    ]);
    match check_response(&resp, 1).unwrap_err() {
        McpError::Protocol(m) => assert_eq!(
            m,
            "response id Array [Number(1), String(\"x\")] does not match request id 1"
        ),
        other => panic!("expected a protocol error, got {:?}", other),
    }
}
