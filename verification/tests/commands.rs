//! Whole commands run against an in-process stand-in for the org-mcp
//! server: the library plans each command, numbers and frames the requests,
//! reads the replies and builds the envelope, exactly as the binary does;
//! only the child process is replaced by `Mock`.
use std::collections::VecDeque;

use org_cli::cli::{
    Cli, ClockArgs, ClockKind, Commands, ConfigArgs, ConfigKind, EditArgs, EditKind, QueryArgs,
    QueryKind, SchemaArgs, TodoArgs, TodoKind, ToolsCmd,
};
use org_cli::discovery::{discover_server, launcher_candidates};
use org_cli::dispatch::{
    admit_call, extract_result, handle_mcp_error, tools_call_arguments, tools_call_data,
    tools_list_data, Failure,
};
use org_cli::json::JsonValue;
use org_cli::mcp::client::Client;
use org_cli::mcp::error::McpError;
use org_cli::mcp::transport::{
    check_spawn_argv, effective_timeout, message_line, read_reply, timeout_error,
};
use org_cli::output::{output_text, success_envelope};
use org_cli::route::{plan, server_command, Action, Plan};
use serde_json::Value;

type Members = serde_json::Map<String, Value>;

const MOCK: &str = "mock_org_mcp";

fn parse(text: &str) -> Value {
    serde_json::from_str(text).unwrap()
}

// ---------------------------------------------------------------------------
// The stand-in server
// ---------------------------------------------------------------------------

#[derive(Default)]
struct Mock {
    /// Answer `tools/call` of this tool with a JSON-RPC error.
    tool_error: Option<&'static str>,
    /// The `data` of that error, as JSON text.
    tool_error_data: Option<&'static str>,
    /// `image`, `resource` or `mixed` content for `org-read`.
    response_kind: Option<&'static str>,
    /// Leave the GTD tools out of `tools/list`.
    no_gtd: bool,
    /// How long each reply takes, in milliseconds.
    hang_ms: u64,
    /// Exit right after the handshake.
    die_after_handshake: bool,
    initialized: bool,
}

const CORE_TOOLS: &[&str] = &[
    "org-read",
    "org-read-headline",
    "org-outline",
    "org-update-todo-state",
    "org-add-todo",
    "org-edit-body",
    "org-edit-rename",
    "org-edit-properties",
    "org-edit-tags",
    "org-edit-priority",
    "org-edit-scheduled",
    "org-edit-deadline",
    "org-edit-log-note",
    "org-clock-status",
    "org-clock-get-active",
    "org-clock-in",
    "org-clock-out",
    "org-clock-add",
    "org-clock-delete",
    "org-clock-dangling",
    "org-clock-find-dangling",
    "org-config-todo",
    "org-config-tags",
    "org-config-tag-candidates",
    "org-config-priority",
    "org-config-files",
    "org-config-clock",
    "org-ql-query",
];

const GTD_TOOLS: &[&str] = &["query-inbox", "query-next", "query-backlog"];

fn text_content(text: &str) -> Value {
    let mut item = Members::new();
    item.insert("type".into(), Value::String("text".into()));
    item.insert("text".into(), Value::String(text.into()));
    let mut result = Members::new();
    result.insert("content".into(), Value::Array(vec![Value::Object(item)]));
    Value::Object(result)
}

fn content_of(items: &str) -> Value {
    parse(&format!(r#"{{"content": {}}}"#, items))
}

const IMAGE_ITEM: &str = r#"{"type":"image","data":"iVBORw0KGgo=","mimeType":"image/png"}"#;

impl Mock {
    /// The reply lines to one request line.
    fn handle(&mut self, line: &str) -> Option<String> {
        let req = parse(line.trim());
        let method = req["method"].as_str().unwrap_or("").to_string();
        let id = req.get("id").cloned()?;
        if method == "notifications/initialized" {
            return None;
        }
        if self.die_after_handshake && self.initialized {
            return None;
        }
        let outcome = match method.as_str() {
            "initialize" => {
                self.initialized = true;
                Ok(parse(
                    r#"{"protocolVersion":"2024-11-05","capabilities":{"tools":{}},"serverInfo":{"name":"mock-org-mcp","version":"0.0.0"}}"#,
                ))
            }
            "tools/list" => {
                let mut names: Vec<&str> = CORE_TOOLS.to_vec();
                if !self.no_gtd {
                    names.extend_from_slice(GTD_TOOLS);
                }
                let tools: Vec<Value> = names
                    .iter()
                    .map(|n| parse(&format!(r#"{{"name":"{}","description":"","inputSchema":{{}}}}"#, n)))
                    .collect();
                let mut m = Members::new();
                m.insert("tools".into(), Value::Array(tools));
                Ok(Value::Object(m))
            }
            "tools/call" => self.call(&req["params"]),
            _ => Err((-32601, "method not found".to_string())),
        };
        let mut reply = Members::new();
        reply.insert("jsonrpc".into(), Value::String("2.0".into()));
        reply.insert("id".into(), id);
        match outcome {
            Ok(result) => {
                reply.insert("result".into(), result);
            }
            Err((code, message)) => {
                let mut e = Members::new();
                e.insert("code".into(), Value::Number(code.into()));
                e.insert("message".into(), Value::String(message));
                if let Some(d) = self.tool_error_data {
                    e.insert("data".into(), parse(d));
                }
                reply.insert("error".into(), Value::Object(e));
            }
        }
        Some(serde_json::to_string(&Value::Object(reply)).unwrap() + "\n")
    }

    fn call(&self, params: &Value) -> Result<Value, (i64, String)> {
        let name = params["name"].as_str().unwrap_or("");
        let args = &params["arguments"];
        if self.tool_error == Some(name) {
            return Err((-32000, format!("mock tool error in {}", name)));
        }
        let s = |k: &str| args[k].as_str().unwrap_or("").to_string();
        let text = match name {
            "org-read" => match self.response_kind {
                Some("image") => return Ok(content_of(&format!("[{}]", IMAGE_ITEM))),
                Some("resource") => {
                    return Ok(content_of(
                        r#"[{"type":"resource","resource":{"uri":"org://res-xyz","mimeType":"text/plain","text":"hello"}}]"#,
                    ))
                }
                Some("mixed") => {
                    return Ok(content_of(&format!(
                        r#"[{{"type":"text","text":"{{\"key\":\"value\"}}"}}, {}]"#,
                        IMAGE_ITEM
                    )))
                }
                _ => format!(
                    r#"{{"title":"Mock Node","todo":"TODO","uri":"org://{}","children":[]}}"#,
                    s("uri")
                ),
            },
            "org-read-headline" => "* TODO Mock Node".to_string(),
            "org-outline" => format!(
                r#"{{"file":"{}","outline":[{{"title":"Heading","level":1}}]}}"#,
                s("file")
            ),
            "org-ql-query" => {
                if s("ql_expr").contains("empty-marker") {
                    r#"{"matches":[],"count":0}"#.to_string()
                } else {
                    r#"{"matches":[{"title":"Match 1"},{"title":"Match 2"}],"count":2}"#.to_string()
                }
            }
            "query-inbox" => r#"{"matches":[{"title":"Inbox 1"}],"count":1}"#.to_string(),
            "query-next" => r#"{"matches":[{"title":"Next 1"}],"count":1}"#.to_string(),
            "query-backlog" => r#"{"matches":[{"title":"Backlog 1"}],"count":1}"#.to_string(),
            "org-update-todo-state" => format!(
                r#"{{"success":true,"uri":"org://{}","new_state":"{}"}}"#,
                s("uri"),
                s("new_state")
            ),
            "org-add-todo" => r#"{"success":true,"uri":"org://new-id-1"}"#.to_string(),
            "org-edit-rename" | "org-edit-body" | "org-edit-properties" | "org-edit-tags"
            | "org-edit-priority" | "org-edit-scheduled" | "org-edit-deadline"
            | "org-edit-log-note" | "org-clock-add" | "org-clock-delete" => {
                r#"{"success":true}"#.to_string()
            }
            "org-clock-get-active" => {
                r#"{"clocked_in":true,"current":{"uri":"org://current-task"}}"#.to_string()
            }
            "org-clock-in" => format!(
                r#"{{"success":true,"uri":"org://{}","resolve":{}}}"#,
                s("uri"),
                args["resolve"]
            ),
            "org-clock-out" => {
                let uri = if args.get("uri").is_some() { s("uri") } else { "current".to_string() };
                format!(r#"{{"success":true,"uri":"org://{}"}}"#, uri)
            }
            "org-clock-find-dangling" => {
                r#"{"dangling":[{"uri":"org://d1"}],"count":1}"#.to_string()
            }
            "org-config-todo" => r#"{"keywords":["TODO","NEXT","DONE"]}"#.to_string(),
            "org-config-tags" => r#"{"tags":["work","home"]}"#.to_string(),
            "org-config-tag-candidates" => {
                r#"{"candidates":[{"tag":"work","count":3}]}"#.to_string()
            }
            "org-config-priority" => r#"{"highest":"A","lowest":"C","default":"B"}"#.to_string(),
            "org-config-files" => r#"{"agenda_files":["/tmp/a.org"]}"#.to_string(),
            "org-config-clock" => r#"{"persist":true,"idle_minutes":15}"#.to_string(),
            _ => return Err((-32601, format!("unknown tool {}", name))),
        };
        Ok(text_content(&text))
    }
}

// ---------------------------------------------------------------------------
// The pipes, and the command runner
// ---------------------------------------------------------------------------

struct Pipe<'a> {
    mock: &'a mut Mock,
    replies: VecDeque<String>,
    timeout: Option<u64>,
}

impl<'a> Pipe<'a> {
    fn spawn(argv: &[String], mock: &'a mut Mock) -> Result<Pipe<'a>, McpError> {
        check_spawn_argv(&argv.to_vec())?;
        if argv[0] != MOCK {
            return Err(McpError::Spawn(format!(
                "cannot spawn '{}': No such file or directory (os error 2)",
                argv[0]
            )));
        }
        Ok(Pipe { mock, replies: VecDeque::new(), timeout: None })
    }

    fn send(&mut self, msg: &JsonValue) -> Result<(), McpError> {
        if let Some(r) = self.mock.handle(&message_line(msg)) {
            self.replies.push_back(r);
        }
        Ok(())
    }

    fn recv(&mut self) -> Result<JsonValue, McpError> {
        if let Some(secs) = self.timeout {
            if self.mock.hang_ms > secs * 1000 {
                return Err(timeout_error(secs));
            }
        }
        read_reply(&self.replies.pop_front().unwrap_or_default())
    }
}

struct Session<'a> {
    pipe: Pipe<'a>,
    client: Client,
}

impl<'a> Session<'a> {
    fn connect(argv: &[String], timeout: u64, mock: &'a mut Mock) -> Result<Session<'a>, McpError> {
        let mut pipe = Pipe::spawn(argv, mock)?;
        pipe.timeout = effective_timeout(Some(timeout));
        let mut s = Session { pipe, client: Client::new() };
        let (id, msg) = s.client.handshake("0.1.0");
        s.pipe.send(&msg)?;
        let reply = s.pipe.recv()?;
        let note = Client::handshake_reply(&reply, id)?;
        s.pipe.send(&note)?;
        Ok(s)
    }

    fn tools_list(&mut self) -> Result<Vec<JsonValue>, McpError> {
        let (id, msg) = self.client.tools_list();
        self.pipe.send(&msg)?;
        let reply = self.pipe.recv()?;
        Client::tools_list_reply(&reply, id)
    }

    fn server_has_tool(&mut self, name: &str) -> Result<bool, McpError> {
        let (id, msg) = self.client.tools_list();
        self.pipe.send(&msg)?;
        let reply = self.pipe.recv()?;
        Client::server_has_tool(&reply, id, name)
    }

    fn tools_call(&mut self, name: &str, arguments: JsonValue) -> Result<JsonValue, McpError> {
        let (id, msg) = self.client.tools_call(name, arguments);
        self.pipe.send(&msg)?;
        let reply = self.pipe.recv()?;
        Client::tools_call_reply(&reply, id)
    }
}

fn remote(argv: &[String], timeout: u64, action: Action, mock: &mut Mock) -> Result<JsonValue, Failure> {
    match action {
        Action::ToolsList => {
            let mut s = Session::connect(argv, timeout, mock).map_err(handle_mcp_error)?;
            Ok(tools_list_data(s.tools_list().map_err(handle_mcp_error)?))
        }
        Action::ToolsCall { name, args } => {
            let arguments = tools_call_arguments(&args)?;
            let mut s = Session::connect(argv, timeout, mock).map_err(handle_mcp_error)?;
            let content = s.tools_call(&name, arguments).map_err(handle_mcp_error)?;
            Ok(tools_call_data(&name, extract_result(content)))
        }
        Action::Call(call) => {
            let mut s = Session::connect(argv, timeout, mock).map_err(handle_mcp_error)?;
            let advertised = if call.gated { Some(s.server_has_tool(&call.tool)) } else { None };
            let call = admit_call(call, advertised)?;
            let content = s.tools_call(&call.tool, call.arguments).map_err(handle_mcp_error)?;
            Ok(extract_result(content))
        }
    }
}

/// Runs a command line: the exit code and what is printed.
fn org_with(cli: Cli, mock: &mut Mock) -> (i32, String) {
    let compact = cli.compact;
    let (code, env) = match plan(&cli) {
        Plan::Local(data) => (0, success_envelope(data)),
        Plan::Fail(f) => (f.exit_code, f.to_envelope()),
        Plan::Remote(action) => {
            let discovered = if cli.server.is_none() {
                discover_server(&launcher_candidates(""), &vec![])
            } else {
                Ok(Vec::new())
            };
            match server_command(&cli, discovered) {
                Err(f) => (f.exit_code, f.to_envelope()),
                Ok(argv) => match remote(&argv, cli.timeout, action, mock) {
                    Ok(data) => (0, success_envelope(data)),
                    Err(f) => (f.exit_code, f.to_envelope()),
                },
            }
        }
    };
    (code, output_text(&env, compact))
}

fn org(cli: Cli) -> (i32, String) {
    org_with(cli, &mut Mock::default())
}

fn output(run: (i32, String)) -> (i32, Value) {
    let (code, stdout) = run;
    let v: Value = serde_json::from_str(&stdout).expect("stdout must be valid JSON");
    (code, v)
}

/// `org --server <mock> <command>`.
fn with_mock(command: Commands) -> Cli {
    Cli { server: Some(MOCK.to_string()), server_args: vec![], compact: false, timeout: 30, command }
}

/// `org <command>`, no `--server`.
fn bare(command: Commands) -> Cli {
    Cli { server: None, server_args: vec![], compact: false, timeout: 30, command }
}

fn strs(xs: &[&str]) -> Vec<String> {
    xs.iter().map(|x| x.to_string()).collect()
}

fn read(uri: &str) -> Commands {
    Commands::Read { uri: uri.into() }
}

fn tools_call(name: &str, args: Option<&str>) -> Commands {
    Commands::Tools { cmd: ToolsCmd::Call { name: name.into(), args: args.map(String::from) } }
}

fn tools_list() -> Commands {
    Commands::Tools { cmd: ToolsCmd::List }
}

fn query(kind: Option<QueryKind>, ql_expr: Option<&str>) -> Commands {
    Commands::Query(QueryArgs { ql_expr: ql_expr.map(String::from), files: vec![], kind })
}

fn run_query(expr: &str) -> Commands {
    query(Some(QueryKind::Run { ql_expr: expr.into(), files: vec![] }), None)
}

fn todo(kind: TodoKind) -> Commands {
    Commands::Todo(TodoArgs { kind })
}

fn edit(kind: EditKind) -> Commands {
    Commands::Edit(EditArgs { kind })
}

fn clock(kind: ClockKind) -> Commands {
    Commands::Clock(ClockArgs { kind })
}

fn config(kind: ConfigKind) -> Commands {
    Commands::Config(ConfigArgs { kind })
}

fn schema(path: &[&str]) -> Commands {
    Commands::Schema(SchemaArgs { path: strs(path) })
}

fn tool_error(tool: &'static str) -> Mock {
    Mock { tool_error: Some(tool), ..Mock::default() }
}

fn assert_tool_error(run: (i32, String)) {
    let (code, v) = output(run);
    assert_eq!(code, 1);
    assert_eq!(v["ok"], false);
    assert_eq!(v["error"]["kind"], "tool");
}

// ---------------------------------------------------------------------------
// read, read-headline, outline
// ---------------------------------------------------------------------------

#[test]
fn test_read_ok_envelope() {
    let (code, v) = output(org(with_mock(read("foo"))));
    assert_eq!(code, 0);
    assert_eq!(v["ok"], true, "envelope ok must be true");
    assert!(v["data"]["title"].is_string(), "data.title must be present");
    assert!(v["data"]["todo"].is_string(), "data.todo must be present");
    assert!(v["data"]["uri"].is_string(), "data.uri must be present");
    assert!(v["data"]["children"].is_array(), "data.children must be array");
}

#[test]
fn test_read_accepts_org_prefix() {
    let (code, v) = output(org(with_mock(read("org://abc"))));
    assert_eq!(code, 0, "exit code should be 0 when reading with org:// prefix");
    assert_eq!(v["ok"], true);
    assert_eq!(v["data"]["uri"], "org://abc");
}

#[test]
fn test_read_tool_error() {
    let (code, v) = output(org_with(with_mock(read("foo")), &mut tool_error("org-read")));
    assert_eq!(code, 1, "expected exit 1 for tool error");
    assert_eq!(v["ok"], false);
    assert_eq!(v["error"]["kind"], "tool");
    assert_eq!(v["exit_code"], 1);
}

#[test]
fn test_read_headline_ok_envelope() {
    let (code, v) = output(org(with_mock(Commands::ReadHeadline { uri: "foo".into() })));
    assert_eq!(code, 0);
    assert_eq!(v["ok"], true);
    let text = v["data"]["text"].as_str().expect("data.text must be a string");
    assert!(!text.is_empty(), "data.text must not be empty");
    assert!(text.contains("TODO"), "mock plain-text response should contain TODO; got: {text}");
}

#[test]
fn test_outline_ok_envelope() {
    let (code, v) = output(org(with_mock(Commands::Outline { file: "/tmp/foo.org".into() })));
    assert_eq!(code, 0);
    assert_eq!(v["ok"], true, "envelope ok must be true");
    assert_eq!(v["data"]["file"], "/tmp/foo.org", "data.file must echo the requested path");
    let outline = v["data"]["outline"].as_array().expect("data.outline must be array");
    assert!(!outline.is_empty(), "outline array must not be empty");
}

#[test]
fn test_outline_org_uri_rejected() {
    let (code, v) = output(org(bare(Commands::Outline { file: "org://abc".into() })));
    assert_eq!(code, 2, "expected exit 2 for org:// outline path");
    assert_eq!(v["ok"], false);
    assert_eq!(v["error"]["kind"], "usage");
    assert_eq!(v["exit_code"], 2);
}

// ---------------------------------------------------------------------------
// content variants
// ---------------------------------------------------------------------------

fn read_with_kind(kind: Option<&'static str>) -> (i32, Value) {
    let mut mock = Mock { response_kind: kind, ..Mock::default() };
    output(org_with(with_mock(read("test-node")), &mut mock))
}

#[test]
fn test_text_variant_unchanged() {
    let (code, v) = read_with_kind(None);
    assert_eq!(code, 0);
    assert_eq!(v["ok"], true);
    assert!(v["data"]["title"].is_string(), "data.title must be present");
    assert!(v["data"]["uri"].is_string(), "data.uri must be present");
}

#[test]
fn test_image_variant() {
    let (code, v) = read_with_kind(Some("image"));
    assert_eq!(code, 0);
    assert_eq!(v["ok"], true);
    assert_eq!(v["data"]["type"], "image", "data.type must be image");
    assert_eq!(v["data"]["mime_type"], "image/png", "mime_type must be image/png (snake_case)");
    assert!(v["data"]["data"].is_string(), "data.data must be base64 string");
    assert!(!v["data"]["data"].as_str().unwrap().is_empty(), "data.data must not be empty");
}

#[test]
fn test_resource_variant() {
    let (code, v) = read_with_kind(Some("resource"));
    assert_eq!(code, 0);
    assert_eq!(v["ok"], true);
    assert_eq!(v["data"]["type"], "resource", "data.type must be resource");
    assert_eq!(v["data"]["uri"], "org://res-xyz", "uri must match");
    assert_eq!(v["data"]["mime_type"], "text/plain", "mime_type must be text/plain (snake_case)");
    assert_eq!(v["data"]["text"], "hello", "text must match");
}

#[test]
fn test_mixed_variant_is_array() {
    let (code, v) = read_with_kind(Some("mixed"));
    assert_eq!(code, 0);
    assert_eq!(v["ok"], true);
    assert!(v["data"].is_array(), "data must be an array for mixed content");
    let arr = v["data"].as_array().unwrap();
    assert_eq!(arr.len(), 2, "array must have exactly 2 items");
    assert!(arr[0].is_object(), "first item must be the parsed JSON object from text");
    assert_eq!(arr[0]["key"], "value", "first item must have key=value");
    assert_eq!(arr[1]["type"], "image", "second item type must be image");
    assert_eq!(arr[1]["mime_type"], "image/png", "second item mime_type");
    assert!(arr[1]["data"].is_string(), "second item data must be string");
}

// ---------------------------------------------------------------------------
// query
// ---------------------------------------------------------------------------

#[test]
fn test_query_bare_ok_envelope() {
    let (code, v) = output(org(with_mock(query(None, Some(r#"(todo "TODO")"#)))));
    assert_eq!(code, 0);
    assert_eq!(v["ok"], true, "envelope ok must be true");
    assert!(v["data"]["matches"].is_array(), "data.matches must be array");
    assert_eq!(v["data"]["matches"].as_array().unwrap().len(), 2, "data.matches must have 2 items");
    assert_eq!(v["data"]["count"], 2, "data.count must be 2");
}

#[test]
fn test_query_bare_empty_result() {
    let (code, v) = output(org(with_mock(query(None, Some("(empty-marker)")))));
    assert_eq!(code, 0);
    assert_eq!(v["ok"], true);
    assert_eq!(v["data"]["matches"].as_array().unwrap().len(), 0, "empty query must return 0 matches");
    assert_eq!(v["data"]["count"], 0);
}

#[test]
fn test_query_bare_no_args_usage_error() {
    let (code, v) = output(org(with_mock(query(None, None))));
    assert_eq!(code, 2, "expected exit 2 for no-args query");
    assert_eq!(v["ok"], false);
    assert_eq!(v["error"]["kind"], "usage");
    assert_eq!(v["exit_code"], 2);
}

#[test]
fn test_query_run_still_works() {
    let (code, v) = output(org(with_mock(run_query(r#"(todo "TODO")"#))));
    assert_eq!(code, 0, "query run must still work");
    assert_eq!(v["ok"], true);
    assert_eq!(v["data"]["matches"].as_array().unwrap().len(), 2);
}

#[test]
fn test_query_inbox_still_works() {
    let (code, v) = output(org(with_mock(query(Some(QueryKind::Inbox), None))));
    assert_eq!(code, 0, "query inbox must still work");
    assert_eq!(v["ok"], true);
}

#[test]
fn test_query_bare_server_flag_propagates() {
    let (code, v) = output(org(with_mock(query(None, Some("(todo)")))));
    assert_eq!(code, 0);
    assert_eq!(v["ok"], true);
}

#[test]
fn test_query_inbox_ok() {
    let (code, v) = output(org(with_mock(query(Some(QueryKind::Inbox), None))));
    assert_eq!(code, 0);
    assert_eq!(v["ok"], true, "envelope ok must be true");
    assert!(v["data"]["matches"].is_array(), "data.matches must be array");
    assert_eq!(v["data"]["matches"][0]["title"], "Inbox 1", "first match title must be 'Inbox 1'");
}

#[test]
fn test_query_backlog_ok() {
    let (code, v) = output(org(with_mock(query(Some(QueryKind::Backlog { tag: None }), None))));
    assert_eq!(code, 0);
    assert_eq!(v["ok"], true, "envelope ok must be true");
    assert!(v["data"]["matches"].is_array(), "data.matches must be array");
}

fn no_gtd(command: Commands) -> (i32, Value) {
    let mut mock = Mock { no_gtd: true, ..Mock::default() };
    output(org_with(with_mock(command), &mut mock))
}

#[test]
fn test_no_gtd_inbox_blocked() {
    let (code, v) = no_gtd(query(Some(QueryKind::Inbox), None));
    assert_eq!(code, 2, "expected exit 2 for GTD capability missing");
    assert_eq!(v["ok"], false, "envelope ok must be false");
    assert_eq!(v["error"]["kind"], "usage", "error kind must be 'usage'");
    assert_eq!(v["exit_code"], 2, "exit_code in envelope must be 2");
    let msg = v["error"]["message"].as_str().expect("message must be string");
    assert!(msg.contains("not advertised"), "message must mention 'not advertised'; got: {msg}");
}

#[test]
fn test_no_gtd_next_blocked() {
    let (code, v) = no_gtd(query(Some(QueryKind::Next { tag: None }), None));
    assert_eq!(code, 2, "expected exit 2 for GTD capability missing");
    assert_eq!(v["ok"], false);
    assert_eq!(v["error"]["kind"], "usage");
    assert_eq!(v["exit_code"], 2);
    let msg = v["error"]["message"].as_str().unwrap();
    assert!(msg.contains("not advertised"), "message must mention 'not advertised'; got: {msg}");
}

#[test]
fn test_no_gtd_backlog_blocked() {
    let (code, v) = no_gtd(query(Some(QueryKind::Backlog { tag: None }), None));
    assert_eq!(code, 2, "expected exit 2 for GTD capability missing");
    assert_eq!(v["ok"], false);
    assert_eq!(v["error"]["kind"], "usage");
    assert_eq!(v["exit_code"], 2);
}

#[test]
fn test_no_gtd_query_run_still_works() {
    let (code, v) = no_gtd(run_query("(todo)"));
    assert_eq!(code, 0, "exit code should be 0 — org-ql-query is not GTD");
    assert_eq!(v["ok"], true, "envelope ok must be true");
}

#[test]
fn test_query_run_ok_envelope() {
    let (code, v) = output(org(with_mock(run_query(r#"(todo "TODO")"#))));
    assert_eq!(code, 0);
    assert_eq!(v["ok"], true, "envelope ok must be true");
    assert!(v["data"]["matches"].is_array(), "data.matches must be array");
    assert_eq!(v["data"]["matches"].as_array().unwrap().len(), 2, "data.matches must have 2 items");
    assert_eq!(v["data"]["count"], 2, "data.count must be 2");
}

#[test]
fn test_query_run_empty_result() {
    let (code, v) = output(org(with_mock(run_query("(empty-marker)"))));
    assert_eq!(code, 0);
    assert_eq!(v["ok"], true);
    assert_eq!(v["data"]["matches"].as_array().unwrap().len(), 0, "empty query must return 0 matches");
    assert_eq!(v["data"]["count"], 0);
}

#[test]
fn test_query_run_tool_error() {
    let (code, v) = output(org_with(with_mock(run_query("(todo)")), &mut tool_error("org-ql-query")));
    assert_eq!(code, 1, "expected exit 1 for tool error");
    assert_eq!(v["ok"], false);
    assert_eq!(v["error"]["kind"], "tool");
    assert_eq!(v["exit_code"], 1);
}

// ---------------------------------------------------------------------------
// todo
// ---------------------------------------------------------------------------

fn todo_state(uri: &str, state: &str) -> Commands {
    todo(TodoKind::State { uri: uri.into(), new_state: state.into(), from: None, note: None })
}

fn todo_add(parent: &str, title: &str, state: &str) -> Commands {
    todo(TodoKind::Add {
        parent: parent.into(),
        title: title.into(),
        state: state.into(),
        body: None,
        tags: vec![],
        after: None,
    })
}

#[test]
fn test_todo_state_ok_envelope() {
    let (code, v) = output(org(with_mock(todo_state("org://abc", "DONE"))));
    assert_eq!(code, 0);
    assert_eq!(v["ok"], true, "envelope ok must be true");
    assert_eq!(v["data"]["success"], true, "data.success must be true");
    assert_eq!(v["data"]["new_state"], "DONE", "data.new_state must be DONE");
    assert_eq!(v["data"]["uri"], "org://abc", "data.uri must be org://abc");
}

#[test]
fn test_todo_state_tool_error() {
    let (code, v) =
        output(org_with(with_mock(todo_state("foo", "DONE")), &mut tool_error("org-update-todo-state")));
    assert_eq!(code, 1, "expected exit 1 for tool error");
    assert_eq!(v["ok"], false);
    assert_eq!(v["error"]["kind"], "tool");
    assert_eq!(v["exit_code"], 1);
}

#[test]
fn test_todo_add_ok_envelope() {
    let (code, v) = output(org(with_mock(todo_add("org://parent", "Hello", "TODO"))));
    assert_eq!(code, 0);
    assert_eq!(v["ok"], true, "envelope ok must be true");
    assert_eq!(v["data"]["success"], true, "data.success must be true");
    let uri = v["data"]["uri"].as_str().expect("data.uri must be a string");
    assert!(uri.starts_with("org://new-id-"), "data.uri must start with org://new-id-; got: {uri}");
}

#[test]
fn test_todo_add_tool_error() {
    let (code, v) = output(org_with(with_mock(todo_add("p", "T", "TODO")), &mut tool_error("org-add-todo")));
    assert_eq!(code, 1, "expected exit 1 for tool error");
    assert_eq!(v["ok"], false);
    assert_eq!(v["error"]["kind"], "tool");
    assert_eq!(v["exit_code"], 1);
}

// ---------------------------------------------------------------------------
// edit
// ---------------------------------------------------------------------------

#[test]
fn test_rename_ok_envelope() {
    let cmd = edit(EditKind::Rename { uri: "org://abc".into(), from: "Old Title".into(), to: "New Title".into() });
    let (code, v) = output(org(with_mock(cmd)));
    assert_eq!(code, 0);
    assert_eq!(v["ok"], true);
    assert_eq!(v["data"]["success"], true);
}

#[test]
fn test_rename_tool_error() {
    let cmd = edit(EditKind::Rename { uri: "foo".into(), from: "A".into(), to: "B".into() });
    assert_tool_error(org_with(with_mock(cmd), &mut tool_error("org-edit-rename")));
}

#[test]
fn test_log_note_tool_error() {
    let cmd = edit(EditKind::LogNote { uri: "abc".into(), note: "x".into() });
    assert_tool_error(org_with(with_mock(cmd), &mut tool_error("org-edit-log-note")));
}

#[test]
fn test_body_ok_envelope() {
    let cmd = edit(EditKind::Body { uri: "org://abc".into(), new: "Hello world".into(), old: None, append: false });
    let (code, v) = output(org(with_mock(cmd)));
    assert_eq!(code, 0);
    assert_eq!(v["ok"], true);
}

#[test]
fn test_body_tool_error() {
    let cmd = edit(EditKind::Body { uri: "abc".into(), new: "x".into(), old: None, append: false });
    assert_tool_error(org_with(with_mock(cmd), &mut tool_error("org-edit-body")));
}

#[test]
fn test_scheduled_tool_error() {
    let cmd = edit(EditKind::Scheduled { uri: "abc".into(), date: None });
    assert_tool_error(org_with(with_mock(cmd), &mut tool_error("org-edit-scheduled")));
}

#[test]
fn test_deadline_tool_error() {
    let cmd = edit(EditKind::Deadline { uri: "abc".into(), date: None });
    assert_tool_error(org_with(with_mock(cmd), &mut tool_error("org-edit-deadline")));
}

#[test]
fn test_properties_malformed_set_exits_2_before_spawn() {
    let cmd = edit(EditKind::Properties { uri: "abc".into(), sets: strs(&["noequals"]), unsets: vec![] });
    let mut mock = Mock::default();
    let (code, v) = output(org_with(with_mock(cmd), &mut mock));
    assert_eq!(code, 2, "exit 2 expected for malformed --set");
    assert_eq!(v["ok"], false);
    assert_eq!(v["error"]["kind"], "usage");
    assert!(!mock.initialized, "the server must not have been spawned");
}

#[test]
fn test_properties_tool_error() {
    let cmd = edit(EditKind::Properties { uri: "abc".into(), sets: vec![], unsets: vec![] });
    assert_tool_error(org_with(with_mock(cmd), &mut tool_error("org-edit-properties")));
}

// ---------------------------------------------------------------------------
// clock
// ---------------------------------------------------------------------------

#[test]
fn test_clock_in_ok_envelope_with_resolve() {
    let cmd = clock(ClockKind::In { uri: "org://abc".into(), at: None, resolve: true });
    let (code, v) = output(org(with_mock(cmd)));
    assert_eq!(code, 0);
    assert_eq!(v["ok"], true);
    assert_eq!(
        v["data"]["resolve"],
        Value::String("true".to_string()),
        "response data.resolve must be string \"true\""
    );
}

#[test]
fn test_clock_in_tool_error() {
    let cmd = clock(ClockKind::In { uri: "abc".into(), at: None, resolve: false });
    assert_tool_error(org_with(with_mock(cmd), &mut tool_error("org-clock-in")));
}

#[test]
fn test_clock_add_ok() {
    let cmd = clock(ClockKind::Add {
        uri: "org://abc".into(),
        start: "2026-04-27T08:00:00Z".into(),
        end: "2026-04-27T09:00:00Z".into(),
    });
    let (code, v) = output(org(with_mock(cmd)));
    assert_eq!(code, 0, "exit 0 expected");
    assert_eq!(v["ok"], true);
    assert_eq!(v["data"]["success"], true);
}

#[test]
fn test_clock_add_tool_error() {
    let cmd = clock(ClockKind::Add {
        uri: "abc".into(),
        start: "2026-04-27T08:00:00Z".into(),
        end: "2026-04-27T09:00:00Z".into(),
    });
    assert_tool_error(org_with(with_mock(cmd), &mut tool_error("org-clock-add")));
}

#[test]
fn test_clock_delete_ok() {
    let cmd = clock(ClockKind::Delete { uri: "org://abc".into(), at: "2026-04-27T08:00:00Z".into() });
    let (code, v) = output(org(with_mock(cmd)));
    assert_eq!(code, 0, "exit 0 expected");
    assert_eq!(v["ok"], true);
    assert_eq!(v["data"]["success"], true);
}

#[test]
fn test_clock_delete_tool_error() {
    let cmd = clock(ClockKind::Delete { uri: "abc".into(), at: "2026-04-27T08:00:00Z".into() });
    assert_tool_error(org_with(with_mock(cmd), &mut tool_error("org-clock-delete")));
}

#[test]
fn test_clock_out_no_uri_ok() {
    let (code, v) = output(org(with_mock(clock(ClockKind::Out { uri: None, at: None }))));
    assert_eq!(code, 0, "exit 0 expected");
    assert_eq!(v["ok"], true);
    assert_eq!(v["data"]["uri"], "org://current", "mock echoes 'org://current' when no URI given");
}

#[test]
fn test_clock_out_tool_error() {
    let cmd = clock(ClockKind::Out { uri: None, at: None });
    assert_tool_error(org_with(with_mock(cmd), &mut tool_error("org-clock-out")));
}

#[test]
fn test_clock_status_ok() {
    let (code, v) = output(org(with_mock(clock(ClockKind::Status))));
    assert_eq!(code, 0, "exit 0 expected");
    assert_eq!(v["ok"], true);
    assert_eq!(v["data"]["clocked_in"], true);
    assert_eq!(v["data"]["current"]["uri"], "org://current-task");
}

#[test]
fn test_clock_status_tool_error() {
    assert_tool_error(org_with(with_mock(clock(ClockKind::Status)), &mut tool_error("org-clock-get-active")));
}

#[test]
fn test_clock_dangling_ok() {
    let (code, v) = output(org(with_mock(clock(ClockKind::Dangling))));
    assert_eq!(code, 0, "exit 0 expected");
    assert_eq!(v["ok"], true);
    assert!(v["data"]["dangling"].is_array(), "data.dangling must be an array");
    assert_eq!(v["data"]["dangling"].as_array().unwrap().len(), 1, "data.dangling must have 1 entry");
    assert_eq!(v["data"]["count"], 1);
}

#[test]
fn test_clock_dangling_tool_error() {
    assert_tool_error(org_with(with_mock(clock(ClockKind::Dangling)), &mut tool_error("org-clock-find-dangling")));
}

// ---------------------------------------------------------------------------
// config
// ---------------------------------------------------------------------------

#[test]
fn test_config_todo_ok() {
    let (code, v) = output(org(with_mock(config(ConfigKind::Todo))));
    assert_eq!(code, 0, "exit 0 expected");
    assert_eq!(v["ok"], true);
    let keywords = v["data"]["keywords"].as_array().expect("data.keywords must be an array");
    assert!(
        keywords.iter().any(|k| k.as_str() == Some("TODO")),
        "data.keywords must include 'TODO', got: {keywords:?}"
    );
}

#[test]
fn test_config_todo_tool_error() {
    assert_tool_error(org_with(with_mock(config(ConfigKind::Todo)), &mut tool_error("org-config-todo")));
}

#[test]
fn test_config_tags_ok() {
    let (code, v) = output(org(with_mock(config(ConfigKind::Tags))));
    assert_eq!(code, 0, "exit 0 expected");
    assert_eq!(v["ok"], true);
    let tags = v["data"]["tags"].as_array().expect("data.tags must be an array");
    assert!(tags.iter().any(|t| t.as_str() == Some("work")), "data.tags must include 'work', got: {tags:?}");
}

#[test]
fn test_config_tag_candidates_ok() {
    let (code, v) = output(org(with_mock(config(ConfigKind::TagCandidates))));
    assert_eq!(code, 0, "exit 0 expected");
    assert_eq!(v["ok"], true);
    let candidates = v["data"]["candidates"].as_array().expect("data.candidates must be an array");
    assert!(!candidates.is_empty(), "data.candidates must have at least one entry");
}

#[test]
fn test_config_priority_ok() {
    let (code, v) = output(org(with_mock(config(ConfigKind::Priority))));
    assert_eq!(code, 0, "exit 0 expected");
    assert_eq!(v["ok"], true);
    assert_eq!(v["data"]["default"], "B", "data.default must be 'B', got: {}", v["data"]["default"]);
}

#[test]
fn test_config_files_ok() {
    let (code, v) = output(org(with_mock(config(ConfigKind::Files))));
    assert_eq!(code, 0, "exit 0 expected");
    assert_eq!(v["ok"], true);
    let files = v["data"]["agenda_files"].as_array().expect("data.agenda_files must be an array");
    assert!(!files.is_empty(), "data.agenda_files must have at least 1 entry");
}

#[test]
fn test_config_clock_ok() {
    let (code, v) = output(org(with_mock(config(ConfigKind::Clock))));
    assert_eq!(code, 0, "exit 0 expected");
    assert_eq!(v["ok"], true);
    assert!(v["data"]["persist"].is_boolean(), "data.persist must be a boolean, got: {}", v["data"]["persist"]);
    assert_eq!(v["data"]["idle_minutes"], 15, "data.idle_minutes must be 15");
}

#[test]
fn test_all_config_commands_produce_ok_envelope() {
    let subcommands = [
        ("todo", ConfigKind::Todo),
        ("tags", ConfigKind::Tags),
        ("tag-candidates", ConfigKind::TagCandidates),
        ("priority", ConfigKind::Priority),
        ("files", ConfigKind::Files),
        ("clock", ConfigKind::Clock),
    ];
    for (sub, kind) in subcommands {
        let (code, v) = output(org(with_mock(config(kind))));
        assert_eq!(code, 0, "org config {sub} must exit 0");
        assert_eq!(v["ok"], true, "org config {sub} must have ok:true");
        assert!(v["data"].is_object(), "org config {sub} must have data as an object, got: {}", v["data"]);
    }
}

// ---------------------------------------------------------------------------
// schema
// ---------------------------------------------------------------------------

fn schema_all() -> Value {
    output(org(bare(schema(&[])))).1
}

fn find_path<'a>(commands: &'a [Value], path: &str) -> Option<&'a Value> {
    let want = parse(path);
    commands.iter().find(|c| c["path"] == want)
}

#[test]
fn test_schema_all_returns_ok_envelope() {
    let (code, v) = output(org(bare(schema(&[]))));
    assert_eq!(code, 0, "org schema must exit 0");
    assert_eq!(v["ok"], true, "envelope ok must be true");
    assert_eq!(v["data"]["version"], 1, "version must be 1");
    let commands = v["data"]["commands"].as_array().expect("data.commands must be an array");
    assert!(!commands.is_empty(), "commands array must not be empty");
}

#[test]
fn test_schema_all_contains_read_entry() {
    let v = schema_all();
    let commands = v["data"]["commands"].as_array().unwrap();
    let read = find_path(commands, r#"["read"]"#).expect("must have a [\"read\"] entry");
    assert_eq!(read["target"]["kind"], "tool");
    assert_eq!(read["target"]["name"], "org-read");
    assert!(read["params"].as_array().is_some());
    assert!(read["exit_codes"].as_array().is_some());
}

#[test]
fn test_schema_all_contains_edit_body_entry() {
    let v = schema_all();
    let commands = v["data"]["commands"].as_array().unwrap();
    let edit_body = find_path(commands, r#"["edit","body"]"#).expect("must have [\"edit\", \"body\"] entry");
    assert_eq!(edit_body["target"]["kind"], "tool");
    assert_eq!(edit_body["target"]["name"], "org-edit-body");
}

#[test]
fn test_schema_all_contains_clock_in_entry() {
    let v = schema_all();
    let commands = v["data"]["commands"].as_array().unwrap();
    let cmd = find_path(commands, r#"["clock","in"]"#).expect("must have [\"clock\", \"in\"] entry");
    assert_eq!(cmd["target"]["kind"], "tool");
    assert_eq!(cmd["target"]["name"], "org-clock-in");
}

#[test]
fn test_schema_all_contains_query_inbox_entry() {
    let v = schema_all();
    let commands = v["data"]["commands"].as_array().unwrap();
    find_path(commands, r#"["query","inbox"]"#).expect("must have [\"query\", \"inbox\"] entry");
}

#[test]
fn test_schema_single_edit_body_returns_command_envelope() {
    let (code, v) = output(org(bare(schema(&["edit", "body"]))));
    assert_eq!(code, 0, "exit code must be 0");
    assert_eq!(v["ok"], true);
    let cmd = &v["data"]["command"];
    assert_eq!(cmd["path"], parse(r#"["edit","body"]"#));
    assert_eq!(cmd["target"]["name"], "org-edit-body");
}

#[test]
fn test_schema_single_edit_body_shows_resource_uri_server_name() {
    let v = output(org(bare(schema(&["edit", "body"])))).1;
    let cmd = &v["data"]["command"];
    let params = cmd["params"].as_array().expect("params must be array");
    let uri_param = params
        .iter()
        .find(|p| p["server_name"] == "resource_uri")
        .expect("edit body must have a param with server_name = resource_uri");
    assert_eq!(uri_param["name"], "uri");
}

#[test]
fn test_schema_single_clock_in_shows_bool_as_string_quirk() {
    let v = output(org(bare(schema(&["clock", "in"])))).1;
    let cmd = &v["data"]["command"];
    let params = cmd["params"].as_array().expect("params must be array");
    let resolve = params.iter().find(|p| p["name"] == "resolve").expect("clock in must have resolve param");
    assert_eq!(resolve["server_value"], "bool_as_string", "resolve must surface bool_as_string quirk");
}

#[test]
fn test_schema_unknown_path_returns_usage_error() {
    let (code, v) = output(org(bare(schema(&["does", "not", "exist"]))));
    assert_eq!(code, 2, "unknown schema path must exit 2");
    assert_eq!(v["ok"], false);
    assert_eq!(v["error"]["kind"], "usage");
    assert_eq!(v["exit_code"], 2);
}

#[test]
fn test_schema_compact_flag() {
    let mut cli = bare(schema(&[]));
    cli.compact = true;
    let (code, stdout) = org(cli);
    assert_eq!(code, 0);
    let trimmed = stdout.trim();
    assert_eq!(trimmed.lines().count(), 1, "--compact must produce single-line output");
    let _: Value = serde_json::from_str(trimmed).expect("must be valid JSON");
}

// ---------------------------------------------------------------------------
// tools list / tools call
// ---------------------------------------------------------------------------

#[test]
fn test_tools_list_envelope_shape() {
    let (code, v) = output(org(with_mock(tools_list())));
    assert_eq!(code, 0, "exit code should be 0");
    assert_eq!(v["ok"], true, "envelope ok must be true");
    let tools = v["data"]["tools"].as_array().expect("data.tools must be array");
    assert!(!tools.is_empty(), "tools array must not be empty");
}

#[test]
fn test_tools_list_has_required_tools() {
    let (_, v) = output(org(with_mock(tools_list())));
    let tools = v["data"]["tools"].as_array().unwrap();
    let names: Vec<&str> = tools.iter().filter_map(|t| t["name"].as_str()).collect();
    assert!(names.contains(&"org-read"), "must include org-read");
    assert!(names.contains(&"org-ql-query"), "must include org-ql-query");
    assert!(names.len() >= 26, "expect at least 26 tools (core + GTD)");
}

#[test]
fn test_tools_list_compact_flag() {
    let mut cli = with_mock(tools_list());
    cli.compact = true;
    let (code, stdout) = org(cli);
    assert_eq!(code, 0);
    let trimmed = stdout.trim();
    assert_eq!(trimmed.lines().count(), 1, "--compact must produce single-line output");
    let _: Value = serde_json::from_str(trimmed).expect("must be valid JSON");
}

#[test]
fn test_tools_call_org_read_returns_ok_envelope() {
    let (code, v) = output(org(with_mock(tools_call("org-read", Some(r#"{"uri":"test-uuid-1234"}"#)))));
    assert_eq!(code, 0, "exit code should be 0");
    assert_eq!(v["ok"], true);
    assert_eq!(v["data"]["tool"], "org-read");
    assert!(!v["data"]["result"].is_null(), "result must be present");
}

#[test]
fn test_tools_call_org_read_headline_returns_text_as_json() {
    let (code, v) =
        output(org(with_mock(tools_call("org-read-headline", Some(r#"{"uri":"test-uuid-1234"}"#)))));
    assert_eq!(code, 0);
    assert_eq!(v["ok"], true);
    assert_eq!(v["data"]["tool"], "org-read-headline");
    assert!(!v["data"]["result"].is_null());
}

#[test]
fn test_tools_call_without_args_flag() {
    let (code, v) = output(org(with_mock(tools_call("org-clock-get-active", None))));
    assert_eq!(code, 0);
    assert_eq!(v["ok"], true);
}

// ---------------------------------------------------------------------------
// errors and exit codes
// ---------------------------------------------------------------------------

fn read_foo_with_error(data: Option<&'static str>) -> (i32, Value) {
    let mut mock = Mock { tool_error: Some("org-read"), tool_error_data: data, ..Mock::default() };
    output(org_with(with_mock(tools_call("org-read", Some(r#"{"uri":"foo"}"#))), &mut mock))
}

#[test]
fn test_error_data_is_preserved_in_envelope() {
    let (code, v) = read_foo_with_error(Some(r#"{"detail":"row 42 lock conflict"}"#));
    assert_eq!(code, 1, "tool error with data must exit 1");
    assert_eq!(v["ok"], false);
    assert_eq!(v["error"]["kind"], "tool");
    assert_eq!(
        v["error"]["data"],
        parse(r#"{"detail": "row 42 lock conflict"}"#),
        "error.data must be preserved from the server response\nenvelope: {}",
        v
    );
}

#[test]
fn test_error_data_is_null_when_absent() {
    let (_, v) = read_foo_with_error(None);
    assert_eq!(v["error"]["data"], Value::Null, "error.data must be null when server sends no data\nenvelope: {}", v);
}

#[test]
fn test_tool_error_returns_ok_false_envelope() {
    let (code, v) = read_foo_with_error(None);
    assert_eq!(code, 1, "tool error must produce exit code 1");
    assert_eq!(v["ok"], false);
    assert_eq!(v["error"]["kind"], "tool");
    assert!(!v["error"]["message"].as_str().unwrap_or("").is_empty());
    assert_eq!(v["exit_code"], 1);
}

#[test]
fn test_spawn_failure_exit_code_4() {
    let mut cli = with_mock(tools_list());
    cli.server = Some("/nonexistent/binary/that/does/not/exist".into());
    let (code, v) = output(org(cli));
    assert_eq!(code, 4, "spawn failure must produce exit code 4");
    assert_eq!(v["ok"], false);
    assert_eq!(v["error"]["kind"], "transport");
    assert_eq!(v["exit_code"], 4);
}

#[test]
fn test_invalid_args_json_exit_code_2() {
    let (code, v) = output(org(with_mock(tools_call("org-read", Some("not-valid-json{{{")))));
    assert_eq!(code, 2, "invalid JSON args must produce exit code 2");
    assert_eq!(v["ok"], false);
    assert_eq!(v["error"]["kind"], "usage");
    assert_eq!(v["exit_code"], 2);
}

#[test]
fn test_exit_0_tools_list() {
    let (code, v) = output(org(with_mock(tools_list())));
    assert_eq!(code, 0, "tools list must exit 0");
    assert_eq!(v["ok"], true);
}

#[test]
fn test_exit_1_tool_error() {
    let (code, v) = read_foo_with_error(None);
    assert_eq!(code, 1, "tool error must exit 1");
    assert_eq!(v["ok"], false);
    assert_eq!(v["error"]["kind"], "tool");
    assert_eq!(v["exit_code"], 1);
}

#[test]
fn test_exit_2_outline_org_uri() {
    let (code, v) = output(org(with_mock(Commands::Outline { file: "org://abc".into() })));
    assert_eq!(code, 2, "outline with org:// must exit 2");
    assert_eq!(v["ok"], false);
    assert_eq!(v["error"]["kind"], "usage");
    assert_eq!(v["exit_code"], 2);
}

#[test]
fn test_exit_2_invalid_args_json() {
    let (code, v) = output(org(with_mock(tools_call("org-read", Some("not-json{{{")))));
    assert_eq!(code, 2, "invalid --args JSON must exit 2");
    assert_eq!(v["ok"], false);
    assert_eq!(v["error"]["kind"], "usage");
    assert_eq!(v["exit_code"], 2);
}

#[test]
fn test_exit_3_transport_die_after_handshake() {
    let mut mock = Mock { die_after_handshake: true, ..Mock::default() };
    let (code, v) = output(org_with(with_mock(tools_list()), &mut mock));
    assert_eq!(code, 3, "transport failure must exit 3");
    assert_eq!(v["ok"], false);
    assert_eq!(v["exit_code"], 3);
}

#[test]
fn test_exit_4_spawn_failure() {
    let mut cli = with_mock(tools_list());
    cli.server = Some("/nonexistent/binary/xyz".into());
    let (code, v) = output(org(cli));
    assert_eq!(code, 4, "spawn failure must exit 4");
    assert_eq!(v["ok"], false);
    assert_eq!(v["exit_code"], 4);
}

#[test]
fn test_timeout_explicit_short_triggers_exit_3() {
    let mut cli = with_mock(tools_list());
    cli.timeout = 1;
    let mut mock = Mock { hang_ms: 2000, ..Mock::default() };
    let (code, stdout) = org_with(cli, &mut mock);
    assert_eq!(code, 3, "exit 3 expected on timeout");
    let v: Value = serde_json::from_str(stdout.trim()).expect("stdout must be valid JSON envelope on timeout");
    assert_eq!(v["ok"], false);
    assert_eq!(v["error"]["kind"], "transport", "kind must be 'transport' on timeout; envelope: {v}");
    let msg = v["error"]["message"].as_str().unwrap_or("");
    assert!(
        msg.contains("timeout") || msg.contains("Timeout") || msg.contains("no response"),
        "message should reference the timeout; got: {msg}"
    );
}

#[test]
fn timeout_zero_waits_without_limit() {
    let mut cli = with_mock(tools_list());
    cli.timeout = 0;
    let mut mock = Mock { hang_ms: 50_000, ..Mock::default() };
    let (code, _) = org_with(cli, &mut mock);
    assert_eq!(code, 0);
}

#[test]
fn missing_launcher_is_usage_exit_4() {
    let (code, v) = output(org(bare(tools_list())));
    assert_eq!(code, 4);
    assert_eq!(v["ok"], false);
    assert_eq!(v["error"]["kind"], "usage");
    assert_eq!(v["exit_code"], 4);
    let msg = v["error"]["message"].as_str().unwrap_or("");
    assert!(msg.contains("emacs-mcp-stdio.sh not found"), "got: {msg}");
}

#[test]
fn schema_never_needs_a_server() {
    let (code, v) = output(org(bare(schema(&[]))));
    assert_eq!(code, 0);
    assert_eq!(v["ok"], true);
}
