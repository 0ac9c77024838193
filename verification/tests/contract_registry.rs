use org_cli::contract::{
    commands, serialize_all, serialize_command, serialize_one, serialize_output_shape,
    serialize_param, CommandSpec, OutputShape, ParamKind, ParamSpec, ParamType, ServerReturns,
    ServerValue, TargetKind, UriRule,
};
use org_cli::json::JsonValue;

fn find_command<'a>(cmds: &'a [CommandSpec], path: &[&str]) -> Option<&'a CommandSpec> {
    cmds.iter().find(|c| c.path.as_slice() == path)
}

fn find_param<'a>(cmd: &'a CommandSpec, name: &str) -> Option<&'a ParamSpec> {
    cmd.params.iter().find(|p| p.name == name)
}

fn member<'a>(v: &'a JsonValue, key: &str) -> &'a JsonValue {
    v.get(key).unwrap_or_else(|| panic!("missing member {key}"))
}

#[test]
fn test_registry_has_expected_count() {
    let cmds = commands();
    assert_eq!(
        cmds.len(),
        33,
        "registry must have exactly 33 entries; got {}",
        cmds.len()
    );
}

#[test]
fn test_all_paths_are_unique() {
    let cmds = commands();
    let mut seen: Vec<&[&str]> = Vec::new();
    for cmd in &cmds {
        assert!(!seen.contains(&cmd.path.as_slice()), "duplicate path {:?}", cmd.path);
        seen.push(cmd.path.as_slice());
    }
}

#[test]
fn test_tool_kind_commands_have_non_empty_target() {
    for cmd in &commands() {
        if matches!(cmd.kind, TargetKind::Tool) {
            assert!(
                !cmd.target.is_empty(),
                "Tool command {:?} must have a non-empty target",
                cmd.path
            );
        }
    }
}

#[test]
fn test_internal_kind_commands_have_empty_target() {
    for cmd in &commands() {
        if matches!(cmd.kind, TargetKind::Internal) {
            assert!(
                cmd.target.is_empty(),
                "Internal command {:?} must have empty target, got {:?}",
                cmd.path,
                cmd.target
            );
        }
    }
}

#[test]
fn test_edit_body_uses_resource_uri_server_name() {
    let cmds = commands();
    let cmd = find_command(&cmds, &["edit", "body"]).expect("edit body must be in registry");
    let uri_param = cmd
        .params
        .iter()
        .find(|p| p.server_name == "resource_uri")
        .expect("edit body must have a param with server_name = resource_uri");
    assert_eq!(uri_param.name, "uri", "the CLI name should be 'uri'");
}

#[test]
fn test_clock_in_resolve_is_bool_as_string() {
    let cmds = commands();
    let cmd = find_command(&cmds, &["clock", "in"]).expect("clock in must be in registry");
    let resolve = find_param(cmd, "resolve").expect("clock in must have --resolve param");
    assert!(
        matches!(resolve.server_value, ServerValue::BoolAsString),
        "--resolve must be ServerValue::BoolAsString, got {:?}",
        resolve.server_value
    );
}

#[test]
fn test_outline_uses_file_path_type() {
    let cmds = commands();
    let cmd = find_command(&cmds, &["outline"]).expect("outline must be in registry");
    let file_param = find_param(cmd, "file").expect("outline must have a 'file' param");
    assert!(
        matches!(file_param.ty, ParamType::FilePath),
        "outline file param must be FilePath, got {:?}",
        file_param.ty
    );
}

#[test]
fn test_read_headline_has_plain_text_server_returns() {
    let cmds = commands();
    let cmd = find_command(&cmds, &["read-headline"]).expect("read-headline must be in registry");
    match &cmd.output_shape {
        OutputShape::Tool { server_returns, .. } => {
            assert!(
                matches!(server_returns, ServerReturns::PlainText),
                "read-headline must have ServerReturns::PlainText"
            );
        }
        other => panic!("read-headline must be OutputShape::Tool, got {:?}", other),
    }
}

#[test]
fn test_gtd_trio_present() {
    let cmds = commands();
    find_command(&cmds, &["query", "inbox"]).expect("query inbox must be in registry");
    find_command(&cmds, &["query", "next"]).expect("query next must be in registry");
    find_command(&cmds, &["query", "backlog"]).expect("query backlog must be in registry");
}

#[test]
fn test_read_accepts_either_uri_form() {
    let cmds = commands();
    let cmd = find_command(&cmds, &["read"]).expect("read must be in registry");
    let uri_param = find_param(cmd, "uri").expect("read must have a 'uri' param");
    assert!(
        matches!(uri_param.uri_rule, UriRule::EitherAccepted),
        "read uri param must be EitherAccepted, got {:?}",
        uri_param.uri_rule
    );
}

#[test]
fn test_query_params() {
    let cmds = commands();
    let cmd = find_command(&cmds, &["query"]).expect("query must be in registry");
    let ql_param = find_param(cmd, "ql_expr").expect("query must have ql_expr param");
    assert!(matches!(ql_param.kind, ParamKind::Positional));
    let files_param = find_param(cmd, "files").expect("query must have --files param");
    assert!(files_param.repeated, "--files must be repeated");
}

#[test]
fn test_todo_add_after_is_bare_only() {
    let cmds = commands();
    let cmd = find_command(&cmds, &["todo", "add"]).expect("todo add must be in registry");
    let after = find_param(cmd, "after").expect("todo add must have --after param");
    assert!(
        matches!(after.uri_rule, UriRule::BareOnly),
        "--after must be BareOnly, got {:?}",
        after.uri_rule
    );
}

#[test]
fn test_schema_commands_are_internal() {
    let cmds = commands();
    let schema = find_command(&cmds, &["schema"]).expect("schema must be in registry");
    assert!(matches!(schema.kind, TargetKind::Internal));
    let schema_path =
        find_command(&cmds, &["schema", "<path>"]).expect("schema <path> must be in registry");
    assert!(matches!(schema_path.kind, TargetKind::Internal));
}

#[test]
fn serialize_all_lists_every_command_in_order() {
    let cmds = commands();
    let all = serialize_all();
    let list = match member(&all, "commands") {
        JsonValue::Array(items) => items,
        other => panic!("commands must be an array, got {:?}", other),
    };
    assert_eq!(list.len(), 33);
    for (item, cmd) in list.iter().zip(cmds.iter()) {
        assert_eq!(*item, serialize_command(cmd));
    }
}

#[test]
fn serialize_one_finds_each_path() {
    for cmd in &commands() {
        let one = serialize_one(&cmd.path).expect("every registered path resolves");
        assert_eq!(*member(&one, "command"), serialize_command(cmd));
    }
}

#[test]
fn serialize_one_unknown_path_is_none() {
    assert!(serialize_one(&["nope"]).is_none());
    assert!(serialize_one(&["edit"]).is_none());
    assert!(serialize_one(&[]).is_none());
}

#[test]
fn serialize_command_edit_body_fields() {
    let cmds = commands();
    let cmd = find_command(&cmds, &["edit", "body"]).unwrap();
    let v = serialize_command(cmd);
    assert_eq!(
        *member(&v, "path"),
        JsonValue::Array(vec![JsonValue::Str("edit".into()), JsonValue::Str("body".into())])
    );
    let target = member(&v, "target");
    assert_eq!(*member(target, "kind"), JsonValue::Str("tool".into()));
    assert_eq!(*member(target, "name"), JsonValue::Str(cmd.target.to_string()));
    let schema = find_command(&cmds, &["schema"]).unwrap();
    let v = serialize_command(schema);
    assert_eq!(
        *member(&v, "target"),
        JsonValue::Object(vec![("kind".to_string(), JsonValue::Str("internal".into()))])
    );
}

#[test]
fn serialize_param_bool_as_string_quirk() {
    let cmds = commands();
    let cmd = find_command(&cmds, &["clock", "in"]).unwrap();
    let v = serialize_param(find_param(cmd, "resolve").unwrap());
    assert_eq!(*member(&v, "name"), JsonValue::Str("resolve".into()));
    assert_eq!(*member(&v, "server_value"), JsonValue::Str("bool_as_string".into()));
}

#[test]
fn serialize_output_shape_plain_text() {
    let cmds = commands();
    let cmd = find_command(&cmds, &["read-headline"]).unwrap();
    let v = serialize_output_shape(&cmd.output_shape);
    assert_eq!(*member(&v, "server_returns"), JsonValue::Str("plain_text".into()));
}
