use org_cli::cli::{Cli, Commands, EditArgs, EditKind, SchemaArgs, ToolsCmd};
use org_cli::json::JsonValue;
use org_cli::output::ErrorKind;
use org_cli::route::{plan, server_command, Action, Plan};

fn cli(command: Commands) -> Cli {
    Cli { server: None, server_args: vec![], compact: false, timeout: 30, command }
}

#[test]
fn schema_is_answered_locally() {
    match plan(&cli(Commands::Schema(SchemaArgs { path: vec![] }))) {
        Plan::Local(v) => assert!(matches!(v.get("commands"), Some(JsonValue::Array(_)))),
        other => panic!("expected a local answer, got {:?}", other),
    }
    match plan(&cli(Commands::Schema(SchemaArgs { path: vec!["bogus".into()] }))) {
        Plan::Fail(f) => assert_eq!(f.message, "unknown command path: bogus"),
        other => panic!("expected a failure, got {:?}", other),
    }
}

#[test]
fn outline_refuses_org_uri_before_spawning() {
    match plan(&cli(Commands::Outline { file: "org://abc".into() })) {
        Plan::Fail(f) => {
            assert_eq!(f.kind, ErrorKind::Usage);
            assert_eq!(f.exit_code, 2);
            assert_eq!(f.message, "org outline expects a file path, not an org:// URI");
        }
        other => panic!("expected a failure, got {:?}", other),
    }
    match plan(&cli(Commands::Outline { file: "/tmp/x.org".into() })) {
        Plan::Remote(Action::Call(c)) => assert_eq!(c.tool, "org-outline"),
        other => panic!("expected a call, got {:?}", other),
    }
}

#[test]
fn tools_commands() {
    assert!(matches!(
        plan(&cli(Commands::Tools { cmd: ToolsCmd::List })),
        Plan::Remote(Action::ToolsList)
    ));
    match plan(&cli(Commands::Tools { cmd: ToolsCmd::Call { name: "org-read".into(), args: Some("{}".into()) } })) {
        Plan::Remote(Action::ToolsCall { name, args }) => {
            assert_eq!(name, "org-read");
            assert_eq!(args.as_deref(), Some("{}"));
        }
        other => panic!("expected a raw call, got {:?}", other),
    }
}

#[test]
fn malformed_edit_fails_before_spawning() {
    let c = cli(Commands::Edit(EditArgs {
        kind: EditKind::Properties { uri: "x".into(), sets: vec!["nokey".into()], unsets: vec![] },
    }));
    assert!(matches!(plan(&c), Plan::Fail(_)));
}

#[test]
fn explicit_server_skips_discovery() {
    let mut c = cli(Commands::Read { uri: "x".into() });
    c.server = Some("/bin/srv".into());
    c.server_args = vec!["--socket".into(), "/tmp/s".into()];
    let argv = server_command(&c, Err("unused".into())).unwrap();
    assert_eq!(argv, vec!["/bin/srv".to_string(), "--socket".into(), "/tmp/s".into()]);
}

#[test]
fn discovered_launcher_takes_server_args() {
    let mut c = cli(Commands::Read { uri: "x".into() });
    c.server_args = vec!["-v".into()];
    let argv = server_command(&c, Ok(vec!["/p/emacs-mcp-stdio.sh".into()])).unwrap();
    assert_eq!(argv, vec!["/p/emacs-mcp-stdio.sh".to_string(), "-v".into()]);
}

#[test]
fn failed_discovery_is_usage_exit_4() {
    let c = cli(Commands::Read { uri: "x".into() });
    let f = server_command(&c, Err("emacs-mcp-stdio.sh not found".into())).unwrap_err();
    assert_eq!(f.kind, ErrorKind::Usage);
    assert_eq!(f.exit_code, 4);
    assert_eq!(f.message, "emacs-mcp-stdio.sh not found");
    let env = f.to_envelope();
    assert_eq!(env.get("exit_code"), Some(&JsonValue::Int(4)));
}
