use org_cli::output::output_text;
use org_cli::json::JsonValue;
use org_cli::output::{
    error_envelope, success_envelope, ErrorDetail, ErrorEnvelope, ErrorKind, SuccessEnvelope,
};

fn obj(members: Vec<(&str, JsonValue)>) -> JsonValue {
    JsonValue::Object(members.into_iter().map(|(k, v)| (k.to_string(), v)).collect())
}

#[test]
fn test_success_envelope_serialization() {
    let env = SuccessEnvelope {
        ok: true,
        data: obj(vec![("tools", JsonValue::Array(vec![]))]),
    };
    let v = env.to_json();
    assert_eq!(v.get("ok"), Some(&JsonValue::Bool(true)));
    assert!(matches!(v.get("data").unwrap().get("tools"), Some(JsonValue::Array(_))));
    assert!(v.get("error").is_none());
}

#[test]
fn test_error_envelope_serialization() {
    let env = ErrorEnvelope {
        ok: false,
        error: ErrorDetail {
            kind: ErrorKind::Tool,
            code: -32000,
            message: "Invalid input".to_string(),
            data: JsonValue::Null,
        },
        exit_code: 1,
    };
    let v = env.to_json();
    assert_eq!(v.get("ok"), Some(&JsonValue::Bool(false)));
    let e = v.get("error").unwrap();
    assert_eq!(e.get("kind"), Some(&JsonValue::Str("tool".into())));
    assert_eq!(e.get("code"), Some(&JsonValue::Int(-32000)));
    assert_eq!(v.get("exit_code"), Some(&JsonValue::Int(1)));
    assert!(v.get("data").is_none());
}

#[test]
fn test_error_kind_serialization() {
    assert_eq!(ErrorKind::Tool.as_str(), "tool");
    assert_eq!(ErrorKind::Transport.as_str(), "transport");
    assert_eq!(ErrorKind::Usage.as_str(), "usage");
}

#[test]
fn success_envelope_exact_document() {
    let v = success_envelope(JsonValue::Int(7));
    assert_eq!(
        v,
        obj(vec![("ok", JsonValue::Bool(true)), ("data", JsonValue::Int(7))])
    );
}

#[test]
fn error_envelope_exact_document() {
    let v = error_envelope(
        ErrorKind::Usage,
        2,
        "bad".to_string(),
        JsonValue::Str("d".into()),
        2,
    );
    assert_eq!(
        v,
        obj(vec![
            ("ok", JsonValue::Bool(false)),
            (
                "error",
                obj(vec![
                    ("kind", JsonValue::Str("usage".into())),
                    ("code", JsonValue::Int(2)),
                    ("message", JsonValue::Str("bad".into())),
                    ("data", JsonValue::Str("d".into())),
                ])
            ),
            ("exit_code", JsonValue::Int(2)),
        ])
    );
}

#[test]
fn output_is_one_line_when_compact() {
    let env = success_envelope(obj(vec![("tools", JsonValue::Array(vec![JsonValue::Int(1)]))]));
    assert_eq!(output_text(&env, true), "{\"data\":{\"tools\":[1]},\"ok\":true}\n");
    let pretty = output_text(&env, false);
    assert!(pretty.lines().count() > 1);
    assert!(pretty.ends_with("}\n"));
}
