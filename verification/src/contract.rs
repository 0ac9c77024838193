//! The command contract registry: every CLI command with its tool target,
//! parameter shapes and output characteristics. It is the single source of
//! the `org schema` output.
use vstd::prelude::*;
use crate::argv::str_views;
use crate::json::{json_str, model, str_eq, ArrayBuilder, Json, JsonValue, ObjectBuilder};

verus! {

/// How a command is carried out.
#[derive(Debug, Clone, Copy, PartialEq, Eq, Structural)]
pub enum TargetKind {
    /// Calls an MCP tool on the server.
    Tool,
    /// Reads an MCP resource from the server.
    Resource,
    /// Handled entirely by the CLI without server IO.
    Internal,
}

/// How a parameter is written on the command line.
#[derive(Debug, Clone, Copy, PartialEq, Eq, Structural)]
pub enum ParamKind {
    /// A positional argument.
    Positional,
    /// A boolean flag (e.g. `--append`).
    Flag,
    /// A key-value option (e.g. `--note <text>`).
    KeyValue,
}

/// The type of a parameter's value.
#[derive(Debug, Clone, Copy, PartialEq, Eq, Structural)]
pub enum ParamType {
    /// An org:// URI or bare identifier.
    Uri,
    /// Always a bare UUID / file-path / file#path (never org://).
    BareUri,
    /// An absolute file system path.
    FilePath,
    /// A free-form string.
    String,
    /// ISO 8601 date (YYYY-MM-DD or YYYY-MM-DD HH:MM).
    IsoDate,
    /// ISO 8601 timestamp.
    IsoTimestamp,
    /// A TODO state keyword (e.g. TODO, DONE).
    TodoState,
    /// A priority letter (A, B, C).
    Priority,
    /// A boolean flag value.
    Bool,
    /// A raw JSON value (passed through as-is).
    Json,
}

/// Which identifier forms a URI parameter accepts.
#[derive(Debug, Clone, Copy, PartialEq, Eq, Structural)]
pub enum UriRule {
    /// Only bare identifiers accepted (no org:// prefix).
    BareOnly,
    /// Only org:// URIs accepted.
    OrgOnly,
    /// Either bare or org:// URI accepted.
    EitherAccepted,
    /// Not applicable (non-URI param).
    Na,
}

/// How a parameter value is sent to the server.
#[derive(Debug, Clone, Copy, PartialEq, Eq, Structural)]
pub enum ServerValue {
    /// Send the value in its natural JSON type.
    Native,
    /// Send a boolean as a JSON string ("true"/"false") instead of bool.
    BoolAsString,
}

/// What the server returns for a tool command.
#[derive(Debug, Clone, Copy, PartialEq, Eq, Structural)]
pub enum ServerReturns {
    /// Server returns a structured JSON object.
    JsonObject,
    /// Server returns plain text; the CLI wraps it as `{"text": "..."}`.
    PlainText,
}

/// The output of a command.
#[derive(Debug)]
pub enum OutputShape {
    Tool {
        server_returns: ServerReturns,
        /// Informal JSON shape descriptor for documentation.
        cli_data: &'static str,
    },
    Internal { cli_data: &'static str },
}

/// One parameter of a command.
#[derive(Debug)]
pub struct ParamSpec {
    /// The CLI flag/positional name (e.g. "uri", "new-state", "files").
    pub name: &'static str,
    /// The exact key used in the tool's JSON arguments sent to org-mcp.
    pub server_name: &'static str,
    pub required: bool,
    /// True if the flag/option may be repeated (e.g. --tag, --files).
    pub repeated: bool,
    pub kind: ParamKind,
    pub ty: ParamType,
    pub uri_rule: UriRule,
    /// Wire-format quirk for this param's value.
    pub server_value: ServerValue,
    pub description: &'static str,
}

/// One command of the CLI.
#[derive(Debug)]
pub struct CommandSpec {
    /// Command path segments, e.g. ["edit", "body"] for `org edit body`.
    pub path: Vec<&'static str>,
    /// One-line summary shown in schema output.
    pub summary: &'static str,
    pub kind: TargetKind,
    /// MCP tool name for Tool kind; empty string for Internal.
    pub target: &'static str,
    pub params: Vec<ParamSpec>,
    pub output_shape: OutputShape,
    /// (exit_code, meaning) pairs for this command.
    pub exit_codes: Vec<(i32, &'static str)>,
}

/// The schema name of a target kind.
pub open spec fn target_kind_name(k: TargetKind) -> Seq<char> {
    match k {
        TargetKind::Tool => "tool"@,
        TargetKind::Resource => "resource"@,
        TargetKind::Internal => "internal"@,
    }
}

/// The schema name of a parameter kind.
pub open spec fn param_kind_name(k: ParamKind) -> Seq<char> {
    match k {
        ParamKind::Positional => "positional"@,
        ParamKind::Flag => "flag"@,
        ParamKind::KeyValue => "key_value"@,
    }
}

/// The schema name of a parameter type.
pub open spec fn param_type_name(t: ParamType) -> Seq<char> {
    match t {
        ParamType::Uri => "uri"@,
        ParamType::BareUri => "bare_uri"@,
        ParamType::FilePath => "file_path"@,
        ParamType::String => "string"@,
        ParamType::IsoDate => "iso_date"@,
        ParamType::IsoTimestamp => "iso_timestamp"@,
        ParamType::TodoState => "todo_state"@,
        ParamType::Priority => "priority"@,
        ParamType::Bool => "bool"@,
        ParamType::Json => "json"@,
    }
}

/// The schema name of a URI rule.
pub open spec fn uri_rule_name(r: UriRule) -> Seq<char> {
    match r {
        UriRule::BareOnly => "bare_only"@,
        UriRule::OrgOnly => "org_only"@,
        UriRule::EitherAccepted => "either"@,
        UriRule::Na => "n/a"@,
    }
}

/// The schema name of a wire-format quirk; the natural format has none.
pub open spec fn server_value_name(v: ServerValue) -> Option<Seq<char>> {
    match v {
        ServerValue::Native => None,
        ServerValue::BoolAsString => Some("bool_as_string"@),
    }
}

/// The schema document of a parameter.
pub open spec fn spec_param(p: ParamSpec) -> Json {
    let base = seq![
        ("name"@, Json::Str(p.name@)),
        ("server_name"@, Json::Str(p.server_name@)),
        ("required"@, Json::Bool(p.required)),
        ("repeated"@, Json::Bool(p.repeated)),
        ("kind"@, Json::Str(param_kind_name(p.kind))),
        ("type"@, Json::Str(param_type_name(p.ty))),
        ("uri_rule"@, Json::Str(uri_rule_name(p.uri_rule))),
        ("description"@, Json::Str(p.description@)),
    ];
    Json::Object(
        match server_value_name(p.server_value) {
            Some(sv) => base.push(("server_value"@, Json::Str(sv))),
            None => base,
        },
    )
}

/// The schema document of an output shape.
pub open spec fn spec_output_shape(s: OutputShape) -> Json {
    match s {
        OutputShape::Tool { server_returns, cli_data } => Json::Object(
            seq![
                ("kind"@, Json::Str("tool"@)),
                ("server_returns"@, Json::Str(
                    match server_returns {
                        ServerReturns::JsonObject => "json_object"@,
                        ServerReturns::PlainText => "plain_text"@,
                    },
                )),
                ("cli_data"@, Json::Str(cli_data@)),
            ],
        ),
        OutputShape::Internal { cli_data } => Json::Object(
            seq![("kind"@, Json::Str("internal"@)), ("cli_data"@, Json::Str(cli_data@))],
        ),
    }
}

/// The schema document of an exit code.
pub open spec fn spec_exit_code(e: (i32, &'static str)) -> Json {
    Json::Object(seq![("code"@, Json::Int(e.0 as int)), ("meaning"@, Json::Str(e.1@))])
}

/// The schema document of a command's target.
pub open spec fn spec_target(c: CommandSpec) -> Json {
    if c.kind == TargetKind::Internal {
        Json::Object(seq![("kind"@, Json::Str("internal"@))])
    } else {
        Json::Object(
            seq![("kind"@, Json::Str(target_kind_name(c.kind))), ("name"@, Json::Str(c.target@))],
        )
    }
}

/// The schema document of a command.
pub open spec fn spec_command(c: CommandSpec) -> Json {
    Json::Object(
        seq![
            ("path"@, Json::Array(Seq::new(c.path@.len(), |i: int| Json::Str(c.path@[i]@)))),
            ("summary"@, Json::Str(c.summary@)),
            ("target"@, spec_target(c)),
            ("params"@, Json::Array(Seq::new(c.params@.len(), |i: int| spec_param(c.params@[i])))),
            ("output"@, spec_output_shape(c.output_shape)),
            ("exit_codes"@, Json::Array(
                Seq::new(c.exit_codes@.len(), |i: int| spec_exit_code(c.exit_codes@[i])),
            )),
        ],
    )
}

/// The path segments of a command.
pub open spec fn path_of(c: CommandSpec) -> Seq<Seq<char>> {
    str_views(c.path@)
}

/// The schema name of a target kind.
pub fn serialize_target_kind(k: &TargetKind) -> (r: &'static str)
    ensures
        r@ == target_kind_name(*k),
{
    match k {
        TargetKind::Tool => "tool",
        TargetKind::Resource => "resource",
        TargetKind::Internal => "internal",
    }
}

/// The schema name of a parameter kind.
pub fn serialize_param_kind(k: &ParamKind) -> (r: &'static str)
    ensures
        r@ == param_kind_name(*k),
{
    match k {
        ParamKind::Positional => "positional",
        ParamKind::Flag => "flag",
        ParamKind::KeyValue => "key_value",
    }
}

/// The schema name of a parameter type.
pub fn serialize_param_type(t: &ParamType) -> (r: &'static str)
    ensures
        r@ == param_type_name(*t),
{
    match t {
        ParamType::Uri => "uri",
        ParamType::BareUri => "bare_uri",
        ParamType::FilePath => "file_path",
        ParamType::String => "string",
        ParamType::IsoDate => "iso_date",
        ParamType::IsoTimestamp => "iso_timestamp",
        ParamType::TodoState => "todo_state",
        ParamType::Priority => "priority",
        ParamType::Bool => "bool",
        ParamType::Json => "json",
    }
}

/// The schema name of a URI rule.
pub fn serialize_uri_rule(r: &UriRule) -> (s: &'static str)
    ensures
        s@ == uri_rule_name(*r),
{
    match r {
        UriRule::BareOnly => "bare_only",
        UriRule::OrgOnly => "org_only",
        UriRule::EitherAccepted => "either",
        UriRule::Na => "n/a",
    }
}

/// The schema name of a wire-format quirk; `None` for the natural format,
/// which the schema omits.
pub fn serialize_server_value(v: &ServerValue) -> (r: Option<&'static str>)
    ensures
        match r {
            Some(s) => server_value_name(*v) == Some(s@),
            None => server_value_name(*v) is None,
        },
{
    match v {
        ServerValue::Native => None,
        ServerValue::BoolAsString => Some("bool_as_string"),
    }
}

/// The schema document of a parameter; `server_value` is present only for
/// a wire-format quirk.
pub fn serialize_param(p: &ParamSpec) -> (r: JsonValue)
    ensures
        model(r) == spec_param(*p),
{
    let mut b = ObjectBuilder::new();
    b.add("name", json_str(p.name));
    b.add("server_name", json_str(p.server_name));
    b.add("required", JsonValue::Bool(p.required));
    b.add("repeated", JsonValue::Bool(p.repeated));
    b.add("kind", json_str(serialize_param_kind(&p.kind)));
    b.add("type", json_str(serialize_param_type(&p.ty)));
    b.add("uri_rule", json_str(serialize_uri_rule(&p.uri_rule)));
    b.add("description", json_str(p.description));
    let ghost base = b.members();
    assert(base =~= seq![
        ("name"@, Json::Str(p.name@)),
        ("server_name"@, Json::Str(p.server_name@)),
        ("required"@, Json::Bool(p.required)),
        ("repeated"@, Json::Bool(p.repeated)),
        ("kind"@, Json::Str(param_kind_name(p.kind))),
        ("type"@, Json::Str(param_type_name(p.ty))),
        ("uri_rule"@, Json::Str(uri_rule_name(p.uri_rule))),
        ("description"@, Json::Str(p.description@)),
    ]);
    if let Some(sv) = serialize_server_value(&p.server_value) {
        b.add("server_value", json_str(sv));
    }
    b.build()
}

/// The schema document of an output shape.
pub fn serialize_output_shape(s: &OutputShape) -> (r: JsonValue)
    ensures
        model(r) == spec_output_shape(*s),
{
    match s {
        OutputShape::Tool { server_returns, cli_data } => {
            let sr = match server_returns {
                ServerReturns::JsonObject => "json_object",
                ServerReturns::PlainText => "plain_text",
            };
            let mut b = ObjectBuilder::new();
            b.add("kind", json_str("tool"));
            b.add("server_returns", json_str(sr));
            b.add("cli_data", json_str(cli_data));
            let r = b.build();
            assert(b.members() =~= seq![
                ("kind"@, Json::Str("tool"@)),
                ("server_returns"@, Json::Str(sr@)),
                ("cli_data"@, Json::Str(cli_data@)),
            ]);
            r
        },
        OutputShape::Internal { cli_data } => {
            let mut b = ObjectBuilder::new();
            b.add("kind", json_str("internal"));
            b.add("cli_data", json_str(cli_data));
            let r = b.build();
            assert(b.members() =~= seq![
                ("kind"@, Json::Str("internal"@)),
                ("cli_data"@, Json::Str(cli_data@)),
            ]);
            r
        },
    }
}

/// The schema document of a command.
pub fn serialize_command(cmd: &CommandSpec) -> (r: JsonValue)
    ensures
        model(r) == spec_command(*cmd),
{
    let mut path = ArrayBuilder::new();
    let mut i: usize = 0;
    while i < cmd.path.len()
        invariant
            i <= cmd.path@.len(),
            path.items() =~= Seq::new(i as nat, |k: int| Json::Str(cmd.path@[k]@)),
        decreases cmd.path@.len() - i,
    {
        path.push(json_str(cmd.path[i]));
        i = i + 1;
    }
    let ghost path_items = path.items();
    let mut params = ArrayBuilder::new();
    let mut i: usize = 0;
    while i < cmd.params.len()
        invariant
            i <= cmd.params@.len(),
            params.items() =~= Seq::new(i as nat, |k: int| spec_param(cmd.params@[k])),
        decreases cmd.params@.len() - i,
    {
        params.push(serialize_param(&cmd.params[i]));
        i = i + 1;
    }
    let ghost params_items = params.items();
    let mut exits = ArrayBuilder::new();
    let mut i: usize = 0;
    while i < cmd.exit_codes.len()
        invariant
            i <= cmd.exit_codes@.len(),
            exits.items() =~= Seq::new(i as nat, |k: int| spec_exit_code(cmd.exit_codes@[k])),
        decreases cmd.exit_codes@.len() - i,
    {
        let (code, meaning) = cmd.exit_codes[i];
        let mut e = ObjectBuilder::new();
        e.add("code", JsonValue::Int(code as i64));
        e.add("meaning", json_str(meaning));
        let ej = e.build();
        assert(e.members() =~= seq![("code"@, Json::Int(code as int)), ("meaning"@, Json::Str(meaning@))]);
        exits.push(ej);
        i = i + 1;
    }
    let ghost exit_items = exits.items();
    let target = if cmd.kind == TargetKind::Internal {
        let mut t = ObjectBuilder::new();
        t.add("kind", json_str("internal"));
        let tj = t.build();
        assert(t.members() =~= seq![("kind"@, Json::Str("internal"@))]);
        tj
    } else {
        let mut t = ObjectBuilder::new();
        t.add("kind", json_str(serialize_target_kind(&cmd.kind)));
        t.add("name", json_str(cmd.target));
        let tj = t.build();
        assert(t.members() =~= seq![
            ("kind"@, Json::Str(target_kind_name(cmd.kind))),
            ("name"@, Json::Str(cmd.target@)),
        ]);
        tj
    };
    let mut b = ObjectBuilder::new();
    b.add("path", path.build());
    b.add("summary", json_str(cmd.summary));
    b.add("target", target);
    b.add("params", params.build());
    b.add("output", serialize_output_shape(&cmd.output_shape));
    b.add("exit_codes", exits.build());
    let r = b.build();
    assert(path_items =~= Seq::new(cmd.path@.len(), |i: int| Json::Str(cmd.path@[i]@)));
    assert(params_items =~= Seq::new(cmd.params@.len(), |i: int| spec_param(cmd.params@[i])));
    assert(exit_items =~= Seq::new(
        cmd.exit_codes@.len(),
        |i: int| spec_exit_code(cmd.exit_codes@[i]),
    ));
    assert(b.members() =~= seq![
        ("path"@, Json::Array(path_items)),
        ("summary"@, Json::Str(cmd.summary@)),
        ("target"@, spec_target(*cmd)),
        ("params"@, Json::Array(params_items)),
        ("output"@, spec_output_shape(cmd.output_shape)),
        ("exit_codes"@, Json::Array(exit_items)),
    ]);
    r
}


/// The schema document of a parameter, written out.
pub open spec fn param_doc(
    name: Seq<char>,
    server_name: Seq<char>,
    required: bool,
    repeated: bool,
    kind: Seq<char>,
    ty: Seq<char>,
    uri_rule: Seq<char>,
    description: Seq<char>,
    quirk: Option<Seq<char>>,
) -> Json {
    let base = seq![
        ("name"@, Json::Str(name)),
        ("server_name"@, Json::Str(server_name)),
        ("required"@, Json::Bool(required)),
        ("repeated"@, Json::Bool(repeated)),
        ("kind"@, Json::Str(kind)),
        ("type"@, Json::Str(ty)),
        ("uri_rule"@, Json::Str(uri_rule)),
        ("description"@, Json::Str(description)),
    ];
    Json::Object(
        match quirk {
            Some(q) => base.push(("server_value"@, Json::Str(q))),
            None => base,
        },
    )
}

/// The schema document of a command, written out.
pub open spec fn command_doc(
    path: Seq<Seq<char>>,
    summary: Seq<char>,
    target: Json,
    params: Seq<Json>,
    output: Json,
    exit_codes: Seq<Json>,
) -> Json {
    Json::Object(
        seq![
            ("path"@, Json::Array(Seq::new(path.len(), |i: int| Json::Str(path[i])))),
            ("summary"@, Json::Str(summary)),
            ("target"@, target),
            ("params"@, Json::Array(params)),
            ("output"@, output),
            ("exit_codes"@, Json::Array(exit_codes)),
        ],
    )
}

/// The target document of a tool command.
pub open spec fn tool_target(name: Seq<char>) -> Json {
    Json::Object(seq![("kind"@, Json::Str("tool"@)), ("name"@, Json::Str(name))])
}

/// The target document of an internal command.
pub open spec fn internal_target() -> Json {
    Json::Object(seq![("kind"@, Json::Str("internal"@))])
}

/// The output document of a tool command.
pub open spec fn tool_output(server_returns: Seq<char>, cli_data: Seq<char>) -> Json {
    Json::Object(
        seq![
            ("kind"@, Json::Str("tool"@)),
            ("server_returns"@, Json::Str(server_returns)),
            ("cli_data"@, Json::Str(cli_data)),
        ],
    )
}

/// The output document of an internal command.
pub open spec fn internal_output(cli_data: Seq<char>) -> Json {
    Json::Object(seq![("kind"@, Json::Str("internal"@)), ("cli_data"@, Json::Str(cli_data))])
}

/// The document of an exit code.
pub open spec fn exit_doc(code: int, meaning: Seq<char>) -> Json {
    Json::Object(seq![("code"@, Json::Int(code)), ("meaning"@, Json::Str(meaning))])
}

/// The exit codes of a command that talks to the server.
pub open spec fn standard_exits() -> Seq<Json> {
    seq![
        exit_doc(0, "success"@),
        exit_doc(1, "tool error from org-mcp"@),
        exit_doc(2, "usage / argument error"@),
        exit_doc(3, "transport / protocol failure"@),
        exit_doc(4, "server spawn / discovery failure"@),
    ]
}

/// The exit codes of a command handled locally.
pub open spec fn internal_exits() -> Seq<Json> {
    seq![exit_doc(0, "success"@), exit_doc(2, "usage / argument error"@)]
}

fn exit_standard() -> (r: Vec<(i32, &'static str)>)
    ensures
        Seq::new(r@.len(), |i: int| spec_exit_code(r@[i])) == standard_exits(),
{
    let mut v: Vec<(i32, &'static str)> = Vec::new();
    v.push((0, "success"));
    v.push((1, "tool error from org-mcp"));
    v.push((2, "usage / argument error"));
    v.push((3, "transport / protocol failure"));
    v.push((4, "server spawn / discovery failure"));
    assert(Seq::new(v@.len(), |i: int| spec_exit_code(v@[i])) =~= standard_exits());
    v
}

fn exit_internal() -> (r: Vec<(i32, &'static str)>)
    ensures
        Seq::new(r@.len(), |i: int| spec_exit_code(r@[i])) == internal_exits(),
{
    let mut v: Vec<(i32, &'static str)> = Vec::new();
    v.push((0, "success"));
    v.push((2, "usage / argument error"));
    assert(Seq::new(v@.len(), |i: int| spec_exit_code(v@[i])) =~= internal_exits());
    v
}

/// The schema document of `read`.
#[verifier::opaque]
pub open spec fn doc_read() -> Json {
    command_doc(
        seq!["read"@],
        "Read an org node and its children as JSON"@,
        tool_target("org-read"@),
        seq![param_doc("uri"@, "uri"@, true, false, "positional"@, "uri"@, "either"@, "Node URI, UUID, file path, or file#headline"@, None)],
        tool_output("json_object"@, "{\"title\":\"...\",\"todo\":\"...\",\"uri\":\"org://...\",\"children\":[]}"@),
        standard_exits(),
    )
}

fn command_read() -> (r: CommandSpec)
    ensures
        spec_command(r) == doc_read(),
        path_of(r) == seq!["read"@],
        r.kind == TargetKind::Tool,
        r.target@ == "org-read"@,
{
    let mut path: Vec<&'static str> = Vec::new();
    path.push("read");
    let mut params: Vec<ParamSpec> = Vec::new();
    params.push(ParamSpec {
        name: "uri",
        server_name: "uri",
        required: true,
        repeated: false,
        kind: ParamKind::Positional,
        ty: ParamType::Uri,
        uri_rule: UriRule::EitherAccepted,
        server_value: ServerValue::Native,
        description: "Node URI, UUID, file path, or file#headline",
    });
    let r = CommandSpec {
        path,
        summary: "Read an org node and its children as JSON",
        kind: TargetKind::Tool,
        target: "org-read",
        params,
        output_shape: OutputShape::Tool { server_returns: ServerReturns::JsonObject, cli_data: "{\"title\":\"...\",\"todo\":\"...\",\"uri\":\"org://...\",\"children\":[]}" },
        exit_codes: exit_standard(),
    };
    reveal(doc_read);
    assert(path_of(r) =~= seq!["read"@]);
    assert(Seq::new(r.path@.len(), |i: int| Json::Str(r.path@[i]@)) =~= Seq::new(
        path_of(r).len(),
        |i: int| Json::Str(path_of(r)[i]),
    ));
    assert(Seq::new(r.params@.len(), |i: int| spec_param(r.params@[i])) =~= seq![param_doc("uri"@, "uri"@, true, false, "positional"@, "uri"@, "either"@, "Node URI, UUID, file path, or file#headline"@, None)]);
    r
}

/// The schema document of `read-headline`.
#[verifier::opaque]
pub open spec fn doc_read_headline() -> Json {
    command_doc(
        seq!["read-headline"@],
        "Read an org node as plain text (wrapped as JSON)"@,
        tool_target("org-read-headline"@),
        seq![param_doc("uri"@, "uri"@, true, false, "positional"@, "uri"@, "either"@, "Node URI or identifier"@, None)],
        tool_output("plain_text"@, "{\"text\":\"* TODO ...headline and body...\"}"@),
        standard_exits(),
    )
}

fn command_read_headline() -> (r: CommandSpec)
    ensures
        spec_command(r) == doc_read_headline(),
        path_of(r) == seq!["read-headline"@],
        r.kind == TargetKind::Tool,
        r.target@ == "org-read-headline"@,
{
    let mut path: Vec<&'static str> = Vec::new();
    path.push("read-headline");
    let mut params: Vec<ParamSpec> = Vec::new();
    params.push(ParamSpec {
        name: "uri",
        server_name: "uri",
        required: true,
        repeated: false,
        kind: ParamKind::Positional,
        ty: ParamType::Uri,
        uri_rule: UriRule::EitherAccepted,
        server_value: ServerValue::Native,
        description: "Node URI or identifier",
    });
    let r = CommandSpec {
        path,
        summary: "Read an org node as plain text (wrapped as JSON)",
        kind: TargetKind::Tool,
        target: "org-read-headline",
        params,
        output_shape: OutputShape::Tool { server_returns: ServerReturns::PlainText, cli_data: "{\"text\":\"* TODO ...headline and body...\"}" },
        exit_codes: exit_standard(),
    };
    reveal(doc_read_headline);
    assert(path_of(r) =~= seq!["read-headline"@]);
    assert(Seq::new(r.path@.len(), |i: int| Json::Str(r.path@[i]@)) =~= Seq::new(
        path_of(r).len(),
        |i: int| Json::Str(path_of(r)[i]),
    ));
    assert(Seq::new(r.params@.len(), |i: int| spec_param(r.params@[i])) =~= seq![param_doc("uri"@, "uri"@, true, false, "positional"@, "uri"@, "either"@, "Node URI or identifier"@, None)]);
    r
}

/// The schema document of `outline`.
#[verifier::opaque]
pub open spec fn doc_outline() -> Json {
    command_doc(
        seq!["outline"@],
        "List the outline of an org file"@,
        tool_target("org-outline"@),
        seq![param_doc("file"@, "file"@, true, false, "positional"@, "file_path"@, "n/a"@, "Absolute path to an org file"@, None)],
        tool_output("json_object"@, "{\"outline\":[...]}"@),
        standard_exits(),
    )
}

fn command_outline() -> (r: CommandSpec)
    ensures
        spec_command(r) == doc_outline(),
        path_of(r) == seq!["outline"@],
        r.kind == TargetKind::Tool,
        r.target@ == "org-outline"@,
{
    let mut path: Vec<&'static str> = Vec::new();
    path.push("outline");
    let mut params: Vec<ParamSpec> = Vec::new();
    params.push(ParamSpec {
        name: "file",
        server_name: "file",
        required: true,
        repeated: false,
        kind: ParamKind::Positional,
        ty: ParamType::FilePath,
        uri_rule: UriRule::Na,
        server_value: ServerValue::Native,
        description: "Absolute path to an org file",
    });
    let r = CommandSpec {
        path,
        summary: "List the outline of an org file",
        kind: TargetKind::Tool,
        target: "org-outline",
        params,
        output_shape: OutputShape::Tool { server_returns: ServerReturns::JsonObject, cli_data: "{\"outline\":[...]}" },
        exit_codes: exit_standard(),
    };
    reveal(doc_outline);
    assert(path_of(r) =~= seq!["outline"@]);
    assert(Seq::new(r.path@.len(), |i: int| Json::Str(r.path@[i]@)) =~= Seq::new(
        path_of(r).len(),
        |i: int| Json::Str(path_of(r)[i]),
    ));
    assert(Seq::new(r.params@.len(), |i: int| spec_param(r.params@[i])) =~= seq![param_doc("file"@, "file"@, true, false, "positional"@, "file_path"@, "n/a"@, "Absolute path to an org file"@, None)]);
    r
}

/// The schema document of `query`.
#[verifier::opaque]
pub open spec fn doc_query() -> Json {
    command_doc(
        seq!["query"@],
        "Query org files with an org-ql expression"@,
        tool_target("org-ql-query"@),
        seq![param_doc("ql_expr"@, "query"@, true, false, "positional"@, "string"@, "n/a"@, "org-ql query expression"@, None), param_doc("files"@, "files"@, false, true, "key_value"@, "file_path"@, "n/a"@, "Org files to search (repeatable); defaults to agenda files"@, None)],
        tool_output("json_object"@, "{\"results\":[...]}"@),
        standard_exits(),
    )
}

fn command_query() -> (r: CommandSpec)
    ensures
        spec_command(r) == doc_query(),
        path_of(r) == seq!["query"@],
        r.kind == TargetKind::Tool,
        r.target@ == "org-ql-query"@,
{
    let mut path: Vec<&'static str> = Vec::new();
    path.push("query");
    let mut params: Vec<ParamSpec> = Vec::new();
    params.push(ParamSpec {
        name: "ql_expr",
        server_name: "query",
        required: true,
        repeated: false,
        kind: ParamKind::Positional,
        ty: ParamType::String,
        uri_rule: UriRule::Na,
        server_value: ServerValue::Native,
        description: "org-ql query expression",
    });
    params.push(ParamSpec {
        name: "files",
        server_name: "files",
        required: false,
        repeated: true,
        kind: ParamKind::KeyValue,
        ty: ParamType::FilePath,
        uri_rule: UriRule::Na,
        server_value: ServerValue::Native,
        description: "Org files to search (repeatable); defaults to agenda files",
    });
    let r = CommandSpec {
        path,
        summary: "Query org files with an org-ql expression",
        kind: TargetKind::Tool,
        target: "org-ql-query",
        params,
        output_shape: OutputShape::Tool { server_returns: ServerReturns::JsonObject, cli_data: "{\"results\":[...]}" },
        exit_codes: exit_standard(),
    };
    reveal(doc_query);
    assert(path_of(r) =~= seq!["query"@]);
    assert(Seq::new(r.path@.len(), |i: int| Json::Str(r.path@[i]@)) =~= Seq::new(
        path_of(r).len(),
        |i: int| Json::Str(path_of(r)[i]),
    ));
    assert(Seq::new(r.params@.len(), |i: int| spec_param(r.params@[i])) =~= seq![param_doc("ql_expr"@, "query"@, true, false, "positional"@, "string"@, "n/a"@, "org-ql query expression"@, None), param_doc("files"@, "files"@, false, true, "key_value"@, "file_path"@, "n/a"@, "Org files to search (repeatable); defaults to agenda files"@, None)]);
    r
}

/// The schema document of `query inbox`.
#[verifier::opaque]
pub open spec fn doc_query_inbox() -> Json {
    command_doc(
        seq!["query"@, "inbox"@],
        "Query GTD inbox (requires GTD configuration in org-mcp)"@,
        tool_target("query-inbox"@),
        Seq::empty(),
        tool_output("json_object"@, "{\"results\":[...]}"@),
        standard_exits(),
    )
}

fn command_query_inbox() -> (r: CommandSpec)
    ensures
        spec_command(r) == doc_query_inbox(),
        path_of(r) == seq!["query"@, "inbox"@],
        r.kind == TargetKind::Tool,
        r.target@ == "query-inbox"@,
{
    let mut path: Vec<&'static str> = Vec::new();
    path.push("query");
    path.push("inbox");
    let mut params: Vec<ParamSpec> = Vec::new();

    let r = CommandSpec {
        path,
        summary: "Query GTD inbox (requires GTD configuration in org-mcp)",
        kind: TargetKind::Tool,
        target: "query-inbox",
        params,
        output_shape: OutputShape::Tool { server_returns: ServerReturns::JsonObject, cli_data: "{\"results\":[...]}" },
        exit_codes: exit_standard(),
    };
    reveal(doc_query_inbox);
    assert(path_of(r) =~= seq!["query"@, "inbox"@]);
    assert(Seq::new(r.path@.len(), |i: int| Json::Str(r.path@[i]@)) =~= Seq::new(
        path_of(r).len(),
        |i: int| Json::Str(path_of(r)[i]),
    ));
    assert(Seq::new(r.params@.len(), |i: int| spec_param(r.params@[i])) =~= Seq::empty());
    r
}

/// The schema document of `query next`.
#[verifier::opaque]
pub open spec fn doc_query_next() -> Json {
    command_doc(
        seq!["query"@, "next"@],
        "Query GTD next actions (requires GTD configuration in org-mcp)"@,
        tool_target("query-next"@),
        seq![param_doc("tag"@, "tag"@, false, false, "key_value"@, "string"@, "n/a"@, "Filter by tag"@, None)],
        tool_output("json_object"@, "{\"results\":[...]}"@),
        standard_exits(),
    )
}

fn command_query_next() -> (r: CommandSpec)
    ensures
        spec_command(r) == doc_query_next(),
        path_of(r) == seq!["query"@, "next"@],
        r.kind == TargetKind::Tool,
        r.target@ == "query-next"@,
{
    let mut path: Vec<&'static str> = Vec::new();
    path.push("query");
    path.push("next");
    let mut params: Vec<ParamSpec> = Vec::new();
    params.push(ParamSpec {
        name: "tag",
        server_name: "tag",
        required: false,
        repeated: false,
        kind: ParamKind::KeyValue,
        ty: ParamType::String,
        uri_rule: UriRule::Na,
        server_value: ServerValue::Native,
        description: "Filter by tag",
    });
    let r = CommandSpec {
        path,
        summary: "Query GTD next actions (requires GTD configuration in org-mcp)",
        kind: TargetKind::Tool,
        target: "query-next",
        params,
        output_shape: OutputShape::Tool { server_returns: ServerReturns::JsonObject, cli_data: "{\"results\":[...]}" },
        exit_codes: exit_standard(),
    };
    reveal(doc_query_next);
    assert(path_of(r) =~= seq!["query"@, "next"@]);
    assert(Seq::new(r.path@.len(), |i: int| Json::Str(r.path@[i]@)) =~= Seq::new(
        path_of(r).len(),
        |i: int| Json::Str(path_of(r)[i]),
    ));
    assert(Seq::new(r.params@.len(), |i: int| spec_param(r.params@[i])) =~= seq![param_doc("tag"@, "tag"@, false, false, "key_value"@, "string"@, "n/a"@, "Filter by tag"@, None)]);
    r
}

/// The schema document of `query backlog`.
#[verifier::opaque]
pub open spec fn doc_query_backlog() -> Json {
    command_doc(
        seq!["query"@, "backlog"@],
        "Query GTD backlog (requires GTD configuration in org-mcp)"@,
        tool_target("query-backlog"@),
        seq![param_doc("tag"@, "tag"@, false, false, "key_value"@, "string"@, "n/a"@, "Filter by tag"@, None)],
        tool_output("json_object"@, "{\"results\":[...]}"@),
        standard_exits(),
    )
}

fn command_query_backlog() -> (r: CommandSpec)
    ensures
        spec_command(r) == doc_query_backlog(),
        path_of(r) == seq!["query"@, "backlog"@],
        r.kind == TargetKind::Tool,
        r.target@ == "query-backlog"@,
{
    let mut path: Vec<&'static str> = Vec::new();
    path.push("query");
    path.push("backlog");
    let mut params: Vec<ParamSpec> = Vec::new();
    params.push(ParamSpec {
        name: "tag",
        server_name: "tag",
        required: false,
        repeated: false,
        kind: ParamKind::KeyValue,
        ty: ParamType::String,
        uri_rule: UriRule::Na,
        server_value: ServerValue::Native,
        description: "Filter by tag",
    });
    let r = CommandSpec {
        path,
        summary: "Query GTD backlog (requires GTD configuration in org-mcp)",
        kind: TargetKind::Tool,
        target: "query-backlog",
        params,
        output_shape: OutputShape::Tool { server_returns: ServerReturns::JsonObject, cli_data: "{\"results\":[...]}" },
        exit_codes: exit_standard(),
    };
    reveal(doc_query_backlog);
    assert(path_of(r) =~= seq!["query"@, "backlog"@]);
    assert(Seq::new(r.path@.len(), |i: int| Json::Str(r.path@[i]@)) =~= Seq::new(
        path_of(r).len(),
        |i: int| Json::Str(path_of(r)[i]),
    ));
    assert(Seq::new(r.params@.len(), |i: int| spec_param(r.params@[i])) =~= seq![param_doc("tag"@, "tag"@, false, false, "key_value"@, "string"@, "n/a"@, "Filter by tag"@, None)]);
    r
}

/// The schema document of `todo state`.
#[verifier::opaque]
pub open spec fn doc_todo_state() -> Json {
    command_doc(
        seq!["todo"@, "state"@],
        "Update the TODO state of a node"@,
        tool_target("org-update-todo-state"@),
        seq![param_doc("uri"@, "uri"@, true, false, "positional"@, "uri"@, "either"@, "Node URI or identifier"@, None), param_doc("new-state"@, "new_state"@, true, false, "positional"@, "todo_state"@, "n/a"@, "New TODO state (e.g. TODO, DONE)"@, None), param_doc("from"@, "from"@, false, false, "key_value"@, "todo_state"@, "n/a"@, "Required current state (optimistic concurrency guard)"@, None), param_doc("note"@, "note"@, false, false, "key_value"@, "string"@, "n/a"@, "Logbook note to attach with the state change"@, None)],
        tool_output("json_object"@, "{\"success\":true,\"uri\":\"org://...\"}"@),
        standard_exits(),
    )
}

fn command_todo_state() -> (r: CommandSpec)
    ensures
        spec_command(r) == doc_todo_state(),
        path_of(r) == seq!["todo"@, "state"@],
        r.kind == TargetKind::Tool,
        r.target@ == "org-update-todo-state"@,
{
    let mut path: Vec<&'static str> = Vec::new();
    path.push("todo");
    path.push("state");
    let mut params: Vec<ParamSpec> = Vec::new();
    params.push(ParamSpec {
        name: "uri",
        server_name: "uri",
        required: true,
        repeated: false,
        kind: ParamKind::Positional,
        ty: ParamType::Uri,
        uri_rule: UriRule::EitherAccepted,
        server_value: ServerValue::Native,
        description: "Node URI or identifier",
    });
    params.push(ParamSpec {
        name: "new-state",
        server_name: "new_state",
        required: true,
        repeated: false,
        kind: ParamKind::Positional,
        ty: ParamType::TodoState,
        uri_rule: UriRule::Na,
        server_value: ServerValue::Native,
        description: "New TODO state (e.g. TODO, DONE)",
    });
    params.push(ParamSpec {
        name: "from",
        server_name: "from",
        required: false,
        repeated: false,
        kind: ParamKind::KeyValue,
        ty: ParamType::TodoState,
        uri_rule: UriRule::Na,
        server_value: ServerValue::Native,
        description: "Required current state (optimistic concurrency guard)",
    });
    params.push(ParamSpec {
        name: "note",
        server_name: "note",
        required: false,
        repeated: false,
        kind: ParamKind::KeyValue,
        ty: ParamType::String,
        uri_rule: UriRule::Na,
        server_value: ServerValue::Native,
        description: "Logbook note to attach with the state change",
    });
    let r = CommandSpec {
        path,
        summary: "Update the TODO state of a node",
        kind: TargetKind::Tool,
        target: "org-update-todo-state",
        params,
        output_shape: OutputShape::Tool { server_returns: ServerReturns::JsonObject, cli_data: "{\"success\":true,\"uri\":\"org://...\"}" },
        exit_codes: exit_standard(),
    };
    reveal(doc_todo_state);
    assert(path_of(r) =~= seq!["todo"@, "state"@]);
    assert(Seq::new(r.path@.len(), |i: int| Json::Str(r.path@[i]@)) =~= Seq::new(
        path_of(r).len(),
        |i: int| Json::Str(path_of(r)[i]),
    ));
    assert(Seq::new(r.params@.len(), |i: int| spec_param(r.params@[i])) =~= seq![param_doc("uri"@, "uri"@, true, false, "positional"@, "uri"@, "either"@, "Node URI or identifier"@, None), param_doc("new-state"@, "new_state"@, true, false, "positional"@, "todo_state"@, "n/a"@, "New TODO state (e.g. TODO, DONE)"@, None), param_doc("from"@, "from"@, false, false, "key_value"@, "todo_state"@, "n/a"@, "Required current state (optimistic concurrency guard)"@, None), param_doc("note"@, "note"@, false, false, "key_value"@, "string"@, "n/a"@, "Logbook note to attach with the state change"@, None)]);
    r
}

/// The schema document of `todo add`.
#[verifier::opaque]
pub open spec fn doc_todo_add() -> Json {
    command_doc(
        seq!["todo"@, "add"@],
        "Add a new TODO node"@,
        tool_target("org-add-todo"@),
        seq![param_doc("parent"@, "parent_uri"@, true, false, "key_value"@, "uri"@, "either"@, "Parent node URI"@, None), param_doc("title"@, "title"@, true, false, "key_value"@, "string"@, "n/a"@, "Headline title for the new node"@, None), param_doc("state"@, "state"@, true, false, "key_value"@, "todo_state"@, "n/a"@, "Initial TODO state"@, None), param_doc("body"@, "body"@, false, false, "key_value"@, "string"@, "n/a"@, "Body text for the new node"@, None), param_doc("tag"@, "tags"@, false, true, "key_value"@, "string"@, "n/a"@, "Tag to attach (repeatable)"@, None), param_doc("after"@, "after_uri"@, false, false, "key_value"@, "bare_uri"@, "bare_only"@, "Sibling node after which to insert (bare ID only)"@, None)],
        tool_output("json_object"@, "{\"success\":true,\"uri\":\"org://...\"}"@),
        standard_exits(),
    )
}

fn command_todo_add() -> (r: CommandSpec)
    ensures
        spec_command(r) == doc_todo_add(),
        path_of(r) == seq!["todo"@, "add"@],
        r.kind == TargetKind::Tool,
        r.target@ == "org-add-todo"@,
{
    let mut path: Vec<&'static str> = Vec::new();
    path.push("todo");
    path.push("add");
    let mut params: Vec<ParamSpec> = Vec::new();
    params.push(ParamSpec {
        name: "parent",
        server_name: "parent_uri",
        required: true,
        repeated: false,
        kind: ParamKind::KeyValue,
        ty: ParamType::Uri,
        uri_rule: UriRule::EitherAccepted,
        server_value: ServerValue::Native,
        description: "Parent node URI",
    });
    params.push(ParamSpec {
        name: "title",
        server_name: "title",
        required: true,
        repeated: false,
        kind: ParamKind::KeyValue,
        ty: ParamType::String,
        uri_rule: UriRule::Na,
        server_value: ServerValue::Native,
        description: "Headline title for the new node",
    });
    params.push(ParamSpec {
        name: "state",
        server_name: "state",
        required: true,
        repeated: false,
        kind: ParamKind::KeyValue,
        ty: ParamType::TodoState,
        uri_rule: UriRule::Na,
        server_value: ServerValue::Native,
        description: "Initial TODO state",
    });
    params.push(ParamSpec {
        name: "body",
        server_name: "body",
        required: false,
        repeated: false,
        kind: ParamKind::KeyValue,
        ty: ParamType::String,
        uri_rule: UriRule::Na,
        server_value: ServerValue::Native,
        description: "Body text for the new node",
    });
    params.push(ParamSpec {
        name: "tag",
        server_name: "tags",
        required: false,
        repeated: true,
        kind: ParamKind::KeyValue,
        ty: ParamType::String,
        uri_rule: UriRule::Na,
        server_value: ServerValue::Native,
        description: "Tag to attach (repeatable)",
    });
    params.push(ParamSpec {
        name: "after",
        server_name: "after_uri",
        required: false,
        repeated: false,
        kind: ParamKind::KeyValue,
        ty: ParamType::BareUri,
        uri_rule: UriRule::BareOnly,
        server_value: ServerValue::Native,
        description: "Sibling node after which to insert (bare ID only)",
    });
    let r = CommandSpec {
        path,
        summary: "Add a new TODO node",
        kind: TargetKind::Tool,
        target: "org-add-todo",
        params,
        output_shape: OutputShape::Tool { server_returns: ServerReturns::JsonObject, cli_data: "{\"success\":true,\"uri\":\"org://...\"}" },
        exit_codes: exit_standard(),
    };
    reveal(doc_todo_add);
    assert(path_of(r) =~= seq!["todo"@, "add"@]);
    assert(Seq::new(r.path@.len(), |i: int| Json::Str(r.path@[i]@)) =~= Seq::new(
        path_of(r).len(),
        |i: int| Json::Str(path_of(r)[i]),
    ));
    assert(Seq::new(r.params@.len(), |i: int| spec_param(r.params@[i])) =~= seq![param_doc("parent"@, "parent_uri"@, true, false, "key_value"@, "uri"@, "either"@, "Parent node URI"@, None), param_doc("title"@, "title"@, true, false, "key_value"@, "string"@, "n/a"@, "Headline title for the new node"@, None), param_doc("state"@, "state"@, true, false, "key_value"@, "todo_state"@, "n/a"@, "Initial TODO state"@, None), param_doc("body"@, "body"@, false, false, "key_value"@, "string"@, "n/a"@, "Body text for the new node"@, None), param_doc("tag"@, "tags"@, false, true, "key_value"@, "string"@, "n/a"@, "Tag to attach (repeatable)"@, None), param_doc("after"@, "after_uri"@, false, false, "key_value"@, "bare_uri"@, "bare_only"@, "Sibling node after which to insert (bare ID only)"@, None)]);
    r
}

/// The schema document of `edit rename`.
#[verifier::opaque]
pub open spec fn doc_edit_rename() -> Json {
    command_doc(
        seq!["edit"@, "rename"@],
        "Rename a node headline"@,
        tool_target("org-edit-rename"@),
        seq![param_doc("uri"@, "uri"@, true, false, "positional"@, "uri"@, "either"@, "Node URI or identifier"@, None), param_doc("from"@, "from"@, true, false, "key_value"@, "string"@, "n/a"@, "Expected current headline (optimistic concurrency guard)"@, None), param_doc("to"@, "to"@, true, false, "key_value"@, "string"@, "n/a"@, "New headline text"@, None)],
        tool_output("json_object"@, "{\"success\":true,\"uri\":\"org://...\"}"@),
        standard_exits(),
    )
}

fn command_edit_rename() -> (r: CommandSpec)
    ensures
        spec_command(r) == doc_edit_rename(),
        path_of(r) == seq!["edit"@, "rename"@],
        r.kind == TargetKind::Tool,
        r.target@ == "org-edit-rename"@,
{
    let mut path: Vec<&'static str> = Vec::new();
    path.push("edit");
    path.push("rename");
    let mut params: Vec<ParamSpec> = Vec::new();
    params.push(ParamSpec {
        name: "uri",
        server_name: "uri",
        required: true,
        repeated: false,
        kind: ParamKind::Positional,
        ty: ParamType::Uri,
        uri_rule: UriRule::EitherAccepted,
        server_value: ServerValue::Native,
        description: "Node URI or identifier",
    });
    params.push(ParamSpec {
        name: "from",
        server_name: "from",
        required: true,
        repeated: false,
        kind: ParamKind::KeyValue,
        ty: ParamType::String,
        uri_rule: UriRule::Na,
        server_value: ServerValue::Native,
        description: "Expected current headline (optimistic concurrency guard)",
    });
    params.push(ParamSpec {
        name: "to",
        server_name: "to",
        required: true,
        repeated: false,
        kind: ParamKind::KeyValue,
        ty: ParamType::String,
        uri_rule: UriRule::Na,
        server_value: ServerValue::Native,
        description: "New headline text",
    });
    let r = CommandSpec {
        path,
        summary: "Rename a node headline",
        kind: TargetKind::Tool,
        target: "org-edit-rename",
        params,
        output_shape: OutputShape::Tool { server_returns: ServerReturns::JsonObject, cli_data: "{\"success\":true,\"uri\":\"org://...\"}" },
        exit_codes: exit_standard(),
    };
    reveal(doc_edit_rename);
    assert(path_of(r) =~= seq!["edit"@, "rename"@]);
    assert(Seq::new(r.path@.len(), |i: int| Json::Str(r.path@[i]@)) =~= Seq::new(
        path_of(r).len(),
        |i: int| Json::Str(path_of(r)[i]),
    ));
    assert(Seq::new(r.params@.len(), |i: int| spec_param(r.params@[i])) =~= seq![param_doc("uri"@, "uri"@, true, false, "positional"@, "uri"@, "either"@, "Node URI or identifier"@, None), param_doc("from"@, "from"@, true, false, "key_value"@, "string"@, "n/a"@, "Expected current headline (optimistic concurrency guard)"@, None), param_doc("to"@, "to"@, true, false, "key_value"@, "string"@, "n/a"@, "New headline text"@, None)]);
    r
}

/// The schema document of `edit body`.
#[verifier::opaque]
pub open spec fn doc_edit_body() -> Json {
    command_doc(
        seq!["edit"@, "body"@],
        "Edit the body text of a node"@,
        tool_target("org-edit-body"@),
        seq![param_doc("uri"@, "resource_uri"@, true, false, "positional"@, "uri"@, "either"@, "Node URI (sent to server as resource_uri)"@, None), param_doc("new"@, "new_body"@, true, false, "key_value"@, "string"@, "n/a"@, "New body text"@, None), param_doc("old"@, "old_body"@, false, false, "key_value"@, "string"@, "n/a"@, "Expected current body (optimistic concurrency guard)"@, None), param_doc("append"@, "append"@, false, false, "flag"@, "bool"@, "n/a"@, "Append to existing body instead of replacing"@, None)],
        tool_output("json_object"@, "{\"success\":true,\"uri\":\"org://...\"}"@),
        standard_exits(),
    )
}

fn command_edit_body() -> (r: CommandSpec)
    ensures
        spec_command(r) == doc_edit_body(),
        path_of(r) == seq!["edit"@, "body"@],
        r.kind == TargetKind::Tool,
        r.target@ == "org-edit-body"@,
{
    let mut path: Vec<&'static str> = Vec::new();
    path.push("edit");
    path.push("body");
    let mut params: Vec<ParamSpec> = Vec::new();
    params.push(ParamSpec {
        name: "uri",
        server_name: "resource_uri",
        required: true,
        repeated: false,
        kind: ParamKind::Positional,
        ty: ParamType::Uri,
        uri_rule: UriRule::EitherAccepted,
        server_value: ServerValue::Native,
        description: "Node URI (sent to server as resource_uri)",
    });
    params.push(ParamSpec {
        name: "new",
        server_name: "new_body",
        required: true,
        repeated: false,
        kind: ParamKind::KeyValue,
        ty: ParamType::String,
        uri_rule: UriRule::Na,
        server_value: ServerValue::Native,
        description: "New body text",
    });
    params.push(ParamSpec {
        name: "old",
        server_name: "old_body",
        required: false,
        repeated: false,
        kind: ParamKind::KeyValue,
        ty: ParamType::String,
        uri_rule: UriRule::Na,
        server_value: ServerValue::Native,
        description: "Expected current body (optimistic concurrency guard)",
    });
    params.push(ParamSpec {
        name: "append",
        server_name: "append",
        required: false,
        repeated: false,
        kind: ParamKind::Flag,
        ty: ParamType::Bool,
        uri_rule: UriRule::Na,
        server_value: ServerValue::Native,
        description: "Append to existing body instead of replacing",
    });
    let r = CommandSpec {
        path,
        summary: "Edit the body text of a node",
        kind: TargetKind::Tool,
        target: "org-edit-body",
        params,
        output_shape: OutputShape::Tool { server_returns: ServerReturns::JsonObject, cli_data: "{\"success\":true,\"uri\":\"org://...\"}" },
        exit_codes: exit_standard(),
    };
    reveal(doc_edit_body);
    assert(path_of(r) =~= seq!["edit"@, "body"@]);
    assert(Seq::new(r.path@.len(), |i: int| Json::Str(r.path@[i]@)) =~= Seq::new(
        path_of(r).len(),
        |i: int| Json::Str(path_of(r)[i]),
    ));
    assert(Seq::new(r.params@.len(), |i: int| spec_param(r.params@[i])) =~= seq![param_doc("uri"@, "resource_uri"@, true, false, "positional"@, "uri"@, "either"@, "Node URI (sent to server as resource_uri)"@, None), param_doc("new"@, "new_body"@, true, false, "key_value"@, "string"@, "n/a"@, "New body text"@, None), param_doc("old"@, "old_body"@, false, false, "key_value"@, "string"@, "n/a"@, "Expected current body (optimistic concurrency guard)"@, None), param_doc("append"@, "append"@, false, false, "flag"@, "bool"@, "n/a"@, "Append to existing body instead of replacing"@, None)]);
    r
}

/// The schema document of `edit properties`.
#[verifier::opaque]
pub open spec fn doc_edit_properties() -> Json {
    command_doc(
        seq!["edit"@, "properties"@],
        "Edit node properties"@,
        tool_target("org-edit-properties"@),
        seq![param_doc("uri"@, "uri"@, true, false, "positional"@, "uri"@, "either"@, "Node URI or identifier"@, None), param_doc("set"@, "set"@, false, true, "key_value"@, "string"@, "n/a"@, "Property to set in k=v form (repeatable)"@, None), param_doc("unset"@, "unset"@, false, true, "key_value"@, "string"@, "n/a"@, "Property key to remove (repeatable)"@, None)],
        tool_output("json_object"@, "{\"success\":true,\"uri\":\"org://...\"}"@),
        standard_exits(),
    )
}

fn command_edit_properties() -> (r: CommandSpec)
    ensures
        spec_command(r) == doc_edit_properties(),
        path_of(r) == seq!["edit"@, "properties"@],
        r.kind == TargetKind::Tool,
        r.target@ == "org-edit-properties"@,
{
    let mut path: Vec<&'static str> = Vec::new();
    path.push("edit");
    path.push("properties");
    let mut params: Vec<ParamSpec> = Vec::new();
    params.push(ParamSpec {
        name: "uri",
        server_name: "uri",
        required: true,
        repeated: false,
        kind: ParamKind::Positional,
        ty: ParamType::Uri,
        uri_rule: UriRule::EitherAccepted,
        server_value: ServerValue::Native,
        description: "Node URI or identifier",
    });
    params.push(ParamSpec {
        name: "set",
        server_name: "set",
        required: false,
        repeated: true,
        kind: ParamKind::KeyValue,
        ty: ParamType::String,
        uri_rule: UriRule::Na,
        server_value: ServerValue::Native,
        description: "Property to set in k=v form (repeatable)",
    });
    params.push(ParamSpec {
        name: "unset",
        server_name: "unset",
        required: false,
        repeated: true,
        kind: ParamKind::KeyValue,
        ty: ParamType::String,
        uri_rule: UriRule::Na,
        server_value: ServerValue::Native,
        description: "Property key to remove (repeatable)",
    });
    let r = CommandSpec {
        path,
        summary: "Edit node properties",
        kind: TargetKind::Tool,
        target: "org-edit-properties",
        params,
        output_shape: OutputShape::Tool { server_returns: ServerReturns::JsonObject, cli_data: "{\"success\":true,\"uri\":\"org://...\"}" },
        exit_codes: exit_standard(),
    };
    reveal(doc_edit_properties);
    assert(path_of(r) =~= seq!["edit"@, "properties"@]);
    assert(Seq::new(r.path@.len(), |i: int| Json::Str(r.path@[i]@)) =~= Seq::new(
        path_of(r).len(),
        |i: int| Json::Str(path_of(r)[i]),
    ));
    assert(Seq::new(r.params@.len(), |i: int| spec_param(r.params@[i])) =~= seq![param_doc("uri"@, "uri"@, true, false, "positional"@, "uri"@, "either"@, "Node URI or identifier"@, None), param_doc("set"@, "set"@, false, true, "key_value"@, "string"@, "n/a"@, "Property to set in k=v form (repeatable)"@, None), param_doc("unset"@, "unset"@, false, true, "key_value"@, "string"@, "n/a"@, "Property key to remove (repeatable)"@, None)]);
    r
}

/// The schema document of `edit tags`.
#[verifier::opaque]
pub open spec fn doc_edit_tags() -> Json {
    command_doc(
        seq!["edit"@, "tags"@],
        "Set tags on a node (replaces existing tags)"@,
        tool_target("org-edit-tags"@),
        seq![param_doc("uri"@, "uri"@, true, false, "positional"@, "uri"@, "either"@, "Node URI or identifier"@, None), param_doc("tag"@, "tags"@, false, true, "key_value"@, "string"@, "n/a"@, "Tag to set (repeatable); omit to clear all tags"@, None)],
        tool_output("json_object"@, "{\"success\":true,\"uri\":\"org://...\"}"@),
        standard_exits(),
    )
}

fn command_edit_tags() -> (r: CommandSpec)
    ensures
        spec_command(r) == doc_edit_tags(),
        path_of(r) == seq!["edit"@, "tags"@],
        r.kind == TargetKind::Tool,
        r.target@ == "org-edit-tags"@,
{
    let mut path: Vec<&'static str> = Vec::new();
    path.push("edit");
    path.push("tags");
    let mut params: Vec<ParamSpec> = Vec::new();
    params.push(ParamSpec {
        name: "uri",
        server_name: "uri",
        required: true,
        repeated: false,
        kind: ParamKind::Positional,
        ty: ParamType::Uri,
        uri_rule: UriRule::EitherAccepted,
        server_value: ServerValue::Native,
        description: "Node URI or identifier",
    });
    params.push(ParamSpec {
        name: "tag",
        server_name: "tags",
        required: false,
        repeated: true,
        kind: ParamKind::KeyValue,
        ty: ParamType::String,
        uri_rule: UriRule::Na,
        server_value: ServerValue::Native,
        description: "Tag to set (repeatable); omit to clear all tags",
    });
    let r = CommandSpec {
        path,
        summary: "Set tags on a node (replaces existing tags)",
        kind: TargetKind::Tool,
        target: "org-edit-tags",
        params,
        output_shape: OutputShape::Tool { server_returns: ServerReturns::JsonObject, cli_data: "{\"success\":true,\"uri\":\"org://...\"}" },
        exit_codes: exit_standard(),
    };
    reveal(doc_edit_tags);
    assert(path_of(r) =~= seq!["edit"@, "tags"@]);
    assert(Seq::new(r.path@.len(), |i: int| Json::Str(r.path@[i]@)) =~= Seq::new(
        path_of(r).len(),
        |i: int| Json::Str(path_of(r)[i]),
    ));
    assert(Seq::new(r.params@.len(), |i: int| spec_param(r.params@[i])) =~= seq![param_doc("uri"@, "uri"@, true, false, "positional"@, "uri"@, "either"@, "Node URI or identifier"@, None), param_doc("tag"@, "tags"@, false, true, "key_value"@, "string"@, "n/a"@, "Tag to set (repeatable); omit to clear all tags"@, None)]);
    r
}

/// The schema document of `edit priority`.
#[verifier::opaque]
pub open spec fn doc_edit_priority() -> Json {
    command_doc(
        seq!["edit"@, "priority"@],
        "Set the priority of a node"@,
        tool_target("org-edit-priority"@),
        seq![param_doc("uri"@, "uri"@, true, false, "positional"@, "uri"@, "either"@, "Node URI or identifier"@, None), param_doc("priority"@, "priority"@, false, false, "key_value"@, "priority"@, "n/a"@, "Priority letter: A, B, or C"@, None)],
        tool_output("json_object"@, "{\"success\":true,\"uri\":\"org://...\"}"@),
        standard_exits(),
    )
}

fn command_edit_priority() -> (r: CommandSpec)
    ensures
        spec_command(r) == doc_edit_priority(),
        path_of(r) == seq!["edit"@, "priority"@],
        r.kind == TargetKind::Tool,
        r.target@ == "org-edit-priority"@,
{
    let mut path: Vec<&'static str> = Vec::new();
    path.push("edit");
    path.push("priority");
    let mut params: Vec<ParamSpec> = Vec::new();
    params.push(ParamSpec {
        name: "uri",
        server_name: "uri",
        required: true,
        repeated: false,
        kind: ParamKind::Positional,
        ty: ParamType::Uri,
        uri_rule: UriRule::EitherAccepted,
        server_value: ServerValue::Native,
        description: "Node URI or identifier",
    });
    params.push(ParamSpec {
        name: "priority",
        server_name: "priority",
        required: false,
        repeated: false,
        kind: ParamKind::KeyValue,
        ty: ParamType::Priority,
        uri_rule: UriRule::Na,
        server_value: ServerValue::Native,
        description: "Priority letter: A, B, or C",
    });
    let r = CommandSpec {
        path,
        summary: "Set the priority of a node",
        kind: TargetKind::Tool,
        target: "org-edit-priority",
        params,
        output_shape: OutputShape::Tool { server_returns: ServerReturns::JsonObject, cli_data: "{\"success\":true,\"uri\":\"org://...\"}" },
        exit_codes: exit_standard(),
    };
    reveal(doc_edit_priority);
    assert(path_of(r) =~= seq!["edit"@, "priority"@]);
    assert(Seq::new(r.path@.len(), |i: int| Json::Str(r.path@[i]@)) =~= Seq::new(
        path_of(r).len(),
        |i: int| Json::Str(path_of(r)[i]),
    ));
    assert(Seq::new(r.params@.len(), |i: int| spec_param(r.params@[i])) =~= seq![param_doc("uri"@, "uri"@, true, false, "positional"@, "uri"@, "either"@, "Node URI or identifier"@, None), param_doc("priority"@, "priority"@, false, false, "key_value"@, "priority"@, "n/a"@, "Priority letter: A, B, or C"@, None)]);
    r
}

/// The schema document of `edit scheduled`.
#[verifier::opaque]
pub open spec fn doc_edit_scheduled() -> Json {
    command_doc(
        seq!["edit"@, "scheduled"@],
        "Set or clear the SCHEDULED date of a node"@,
        tool_target("org-edit-scheduled"@),
        seq![param_doc("uri"@, "uri"@, true, false, "positional"@, "uri"@, "either"@, "Node URI or identifier"@, None), param_doc("date"@, "date"@, false, false, "key_value"@, "iso_date"@, "n/a"@, "Scheduled date in YYYY-MM-DD or YYYY-MM-DD HH:MM format"@, None)],
        tool_output("json_object"@, "{\"success\":true,\"uri\":\"org://...\"}"@),
        standard_exits(),
    )
}

fn command_edit_scheduled() -> (r: CommandSpec)
    ensures
        spec_command(r) == doc_edit_scheduled(),
        path_of(r) == seq!["edit"@, "scheduled"@],
        r.kind == TargetKind::Tool,
        r.target@ == "org-edit-scheduled"@,
{
    let mut path: Vec<&'static str> = Vec::new();
    path.push("edit");
    path.push("scheduled");
    let mut params: Vec<ParamSpec> = Vec::new();
    params.push(ParamSpec {
        name: "uri",
        server_name: "uri",
        required: true,
        repeated: false,
        kind: ParamKind::Positional,
        ty: ParamType::Uri,
        uri_rule: UriRule::EitherAccepted,
        server_value: ServerValue::Native,
        description: "Node URI or identifier",
    });
    params.push(ParamSpec {
        name: "date",
        server_name: "date",
        required: false,
        repeated: false,
        kind: ParamKind::KeyValue,
        ty: ParamType::IsoDate,
        uri_rule: UriRule::Na,
        server_value: ServerValue::Native,
        description: "Scheduled date in YYYY-MM-DD or YYYY-MM-DD HH:MM format",
    });
    let r = CommandSpec {
        path,
        summary: "Set or clear the SCHEDULED date of a node",
        kind: TargetKind::Tool,
        target: "org-edit-scheduled",
        params,
        output_shape: OutputShape::Tool { server_returns: ServerReturns::JsonObject, cli_data: "{\"success\":true,\"uri\":\"org://...\"}" },
        exit_codes: exit_standard(),
    };
    reveal(doc_edit_scheduled);
    assert(path_of(r) =~= seq!["edit"@, "scheduled"@]);
    assert(Seq::new(r.path@.len(), |i: int| Json::Str(r.path@[i]@)) =~= Seq::new(
        path_of(r).len(),
        |i: int| Json::Str(path_of(r)[i]),
    ));
    assert(Seq::new(r.params@.len(), |i: int| spec_param(r.params@[i])) =~= seq![param_doc("uri"@, "uri"@, true, false, "positional"@, "uri"@, "either"@, "Node URI or identifier"@, None), param_doc("date"@, "date"@, false, false, "key_value"@, "iso_date"@, "n/a"@, "Scheduled date in YYYY-MM-DD or YYYY-MM-DD HH:MM format"@, None)]);
    r
}

/// The schema document of `edit deadline`.
#[verifier::opaque]
pub open spec fn doc_edit_deadline() -> Json {
    command_doc(
        seq!["edit"@, "deadline"@],
        "Set or clear the DEADLINE date of a node"@,
        tool_target("org-edit-deadline"@),
        seq![param_doc("uri"@, "uri"@, true, false, "positional"@, "uri"@, "either"@, "Node URI or identifier"@, None), param_doc("date"@, "date"@, false, false, "key_value"@, "iso_date"@, "n/a"@, "Deadline date in YYYY-MM-DD or YYYY-MM-DD HH:MM format"@, None)],
        tool_output("json_object"@, "{\"success\":true,\"uri\":\"org://...\"}"@),
        standard_exits(),
    )
}

fn command_edit_deadline() -> (r: CommandSpec)
    ensures
        spec_command(r) == doc_edit_deadline(),
        path_of(r) == seq!["edit"@, "deadline"@],
        r.kind == TargetKind::Tool,
        r.target@ == "org-edit-deadline"@,
{
    let mut path: Vec<&'static str> = Vec::new();
    path.push("edit");
    path.push("deadline");
    let mut params: Vec<ParamSpec> = Vec::new();
    params.push(ParamSpec {
        name: "uri",
        server_name: "uri",
        required: true,
        repeated: false,
        kind: ParamKind::Positional,
        ty: ParamType::Uri,
        uri_rule: UriRule::EitherAccepted,
        server_value: ServerValue::Native,
        description: "Node URI or identifier",
    });
    params.push(ParamSpec {
        name: "date",
        server_name: "date",
        required: false,
        repeated: false,
        kind: ParamKind::KeyValue,
        ty: ParamType::IsoDate,
        uri_rule: UriRule::Na,
        server_value: ServerValue::Native,
        description: "Deadline date in YYYY-MM-DD or YYYY-MM-DD HH:MM format",
    });
    let r = CommandSpec {
        path,
        summary: "Set or clear the DEADLINE date of a node",
        kind: TargetKind::Tool,
        target: "org-edit-deadline",
        params,
        output_shape: OutputShape::Tool { server_returns: ServerReturns::JsonObject, cli_data: "{\"success\":true,\"uri\":\"org://...\"}" },
        exit_codes: exit_standard(),
    };
    reveal(doc_edit_deadline);
    assert(path_of(r) =~= seq!["edit"@, "deadline"@]);
    assert(Seq::new(r.path@.len(), |i: int| Json::Str(r.path@[i]@)) =~= Seq::new(
        path_of(r).len(),
        |i: int| Json::Str(path_of(r)[i]),
    ));
    assert(Seq::new(r.params@.len(), |i: int| spec_param(r.params@[i])) =~= seq![param_doc("uri"@, "uri"@, true, false, "positional"@, "uri"@, "either"@, "Node URI or identifier"@, None), param_doc("date"@, "date"@, false, false, "key_value"@, "iso_date"@, "n/a"@, "Deadline date in YYYY-MM-DD or YYYY-MM-DD HH:MM format"@, None)]);
    r
}

/// The schema document of `edit log-note`.
#[verifier::opaque]
pub open spec fn doc_edit_log_note() -> Json {
    command_doc(
        seq!["edit"@, "log-note"@],
        "Add a logbook note to a node"@,
        tool_target("org-edit-log-note"@),
        seq![param_doc("uri"@, "uri"@, true, false, "positional"@, "uri"@, "either"@, "Node URI or identifier"@, None), param_doc("note"@, "note"@, true, false, "key_value"@, "string"@, "n/a"@, "Note text to add to the logbook"@, None)],
        tool_output("json_object"@, "{\"success\":true,\"uri\":\"org://...\"}"@),
        standard_exits(),
    )
}

fn command_edit_log_note() -> (r: CommandSpec)
    ensures
        spec_command(r) == doc_edit_log_note(),
        path_of(r) == seq!["edit"@, "log-note"@],
        r.kind == TargetKind::Tool,
        r.target@ == "org-edit-log-note"@,
{
    let mut path: Vec<&'static str> = Vec::new();
    path.push("edit");
    path.push("log-note");
    let mut params: Vec<ParamSpec> = Vec::new();
    params.push(ParamSpec {
        name: "uri",
        server_name: "uri",
        required: true,
        repeated: false,
        kind: ParamKind::Positional,
        ty: ParamType::Uri,
        uri_rule: UriRule::EitherAccepted,
        server_value: ServerValue::Native,
        description: "Node URI or identifier",
    });
    params.push(ParamSpec {
        name: "note",
        server_name: "note",
        required: true,
        repeated: false,
        kind: ParamKind::KeyValue,
        ty: ParamType::String,
        uri_rule: UriRule::Na,
        server_value: ServerValue::Native,
        description: "Note text to add to the logbook",
    });
    let r = CommandSpec {
        path,
        summary: "Add a logbook note to a node",
        kind: TargetKind::Tool,
        target: "org-edit-log-note",
        params,
        output_shape: OutputShape::Tool { server_returns: ServerReturns::JsonObject, cli_data: "{\"success\":true,\"uri\":\"org://...\"}" },
        exit_codes: exit_standard(),
    };
    reveal(doc_edit_log_note);
    assert(path_of(r) =~= seq!["edit"@, "log-note"@]);
    assert(Seq::new(r.path@.len(), |i: int| Json::Str(r.path@[i]@)) =~= Seq::new(
        path_of(r).len(),
        |i: int| Json::Str(path_of(r)[i]),
    ));
    assert(Seq::new(r.params@.len(), |i: int| spec_param(r.params@[i])) =~= seq![param_doc("uri"@, "uri"@, true, false, "positional"@, "uri"@, "either"@, "Node URI or identifier"@, None), param_doc("note"@, "note"@, true, false, "key_value"@, "string"@, "n/a"@, "Note text to add to the logbook"@, None)]);
    r
}

/// The schema document of `clock status`.
#[verifier::opaque]
pub open spec fn doc_clock_status() -> Json {
    command_doc(
        seq!["clock"@, "status"@],
        "Get the current clock status"@,
        tool_target("org-clock-status"@),
        Seq::empty(),
        tool_output("json_object"@, "{\"clocked_in\":true,\"uri\":\"org://...\",\"title\":\"...\"}"@),
        standard_exits(),
    )
}

fn command_clock_status() -> (r: CommandSpec)
    ensures
        spec_command(r) == doc_clock_status(),
        path_of(r) == seq!["clock"@, "status"@],
        r.kind == TargetKind::Tool,
        r.target@ == "org-clock-status"@,
{
    let mut path: Vec<&'static str> = Vec::new();
    path.push("clock");
    path.push("status");
    let mut params: Vec<ParamSpec> = Vec::new();

    let r = CommandSpec {
        path,
        summary: "Get the current clock status",
        kind: TargetKind::Tool,
        target: "org-clock-status",
        params,
        output_shape: OutputShape::Tool { server_returns: ServerReturns::JsonObject, cli_data: "{\"clocked_in\":true,\"uri\":\"org://...\",\"title\":\"...\"}" },
        exit_codes: exit_standard(),
    };
    reveal(doc_clock_status);
    assert(path_of(r) =~= seq!["clock"@, "status"@]);
    assert(Seq::new(r.path@.len(), |i: int| Json::Str(r.path@[i]@)) =~= Seq::new(
        path_of(r).len(),
        |i: int| Json::Str(path_of(r)[i]),
    ));
    assert(Seq::new(r.params@.len(), |i: int| spec_param(r.params@[i])) =~= Seq::empty());
    r
}

/// The schema document of `clock in`.
#[verifier::opaque]
pub open spec fn doc_clock_in() -> Json {
    command_doc(
        seq!["clock"@, "in"@],
        "Clock in to a node"@,
        tool_target("org-clock-in"@),
        seq![param_doc("uri"@, "uri"@, true, false, "positional"@, "uri"@, "either"@, "Node URI or identifier"@, None), param_doc("at"@, "at"@, false, false, "key_value"@, "iso_timestamp"@, "n/a"@, "Clock-in timestamp (ISO 8601); defaults to now"@, None), param_doc("resolve"@, "resolve"@, false, false, "flag"@, "bool"@, "n/a"@, "Resolve dangling clocks before clocking in (sent as string to server)"@, Some("bool_as_string"@))],
        tool_output("json_object"@, "{\"success\":true,\"uri\":\"org://...\"}"@),
        standard_exits(),
    )
}

fn command_clock_in() -> (r: CommandSpec)
    ensures
        spec_command(r) == doc_clock_in(),
        path_of(r) == seq!["clock"@, "in"@],
        r.kind == TargetKind::Tool,
        r.target@ == "org-clock-in"@,
{
    let mut path: Vec<&'static str> = Vec::new();
    path.push("clock");
    path.push("in");
    let mut params: Vec<ParamSpec> = Vec::new();
    params.push(ParamSpec {
        name: "uri",
        server_name: "uri",
        required: true,
        repeated: false,
        kind: ParamKind::Positional,
        ty: ParamType::Uri,
        uri_rule: UriRule::EitherAccepted,
        server_value: ServerValue::Native,
        description: "Node URI or identifier",
    });
    params.push(ParamSpec {
        name: "at",
        server_name: "at",
        required: false,
        repeated: false,
        kind: ParamKind::KeyValue,
        ty: ParamType::IsoTimestamp,
        uri_rule: UriRule::Na,
        server_value: ServerValue::Native,
        description: "Clock-in timestamp (ISO 8601); defaults to now",
    });
    params.push(ParamSpec {
        name: "resolve",
        server_name: "resolve",
        required: false,
        repeated: false,
        kind: ParamKind::Flag,
        ty: ParamType::Bool,
        uri_rule: UriRule::Na,
        server_value: ServerValue::BoolAsString,
        description: "Resolve dangling clocks before clocking in (sent as string to server)",
    });
    let r = CommandSpec {
        path,
        summary: "Clock in to a node",
        kind: TargetKind::Tool,
        target: "org-clock-in",
        params,
        output_shape: OutputShape::Tool { server_returns: ServerReturns::JsonObject, cli_data: "{\"success\":true,\"uri\":\"org://...\"}" },
        exit_codes: exit_standard(),
    };
    reveal(doc_clock_in);
    assert(path_of(r) =~= seq!["clock"@, "in"@]);
    assert(Seq::new(r.path@.len(), |i: int| Json::Str(r.path@[i]@)) =~= Seq::new(
        path_of(r).len(),
        |i: int| Json::Str(path_of(r)[i]),
    ));
    assert(Seq::new(r.params@.len(), |i: int| spec_param(r.params@[i])) =~= seq![param_doc("uri"@, "uri"@, true, false, "positional"@, "uri"@, "either"@, "Node URI or identifier"@, None), param_doc("at"@, "at"@, false, false, "key_value"@, "iso_timestamp"@, "n/a"@, "Clock-in timestamp (ISO 8601); defaults to now"@, None), param_doc("resolve"@, "resolve"@, false, false, "flag"@, "bool"@, "n/a"@, "Resolve dangling clocks before clocking in (sent as string to server)"@, Some("bool_as_string"@))]);
    r
}

/// The schema document of `clock out`.
#[verifier::opaque]
pub open spec fn doc_clock_out() -> Json {
    command_doc(
        seq!["clock"@, "out"@],
        "Clock out of the active clock"@,
        tool_target("org-clock-out"@),
        seq![param_doc("uri"@, "uri"@, false, false, "positional"@, "uri"@, "either"@, "Node URI (optional; defaults to active clock)"@, None), param_doc("at"@, "at"@, false, false, "key_value"@, "iso_timestamp"@, "n/a"@, "Clock-out timestamp (ISO 8601); defaults to now"@, None)],
        tool_output("json_object"@, "{\"success\":true}"@),
        standard_exits(),
    )
}

fn command_clock_out() -> (r: CommandSpec)
    ensures
        spec_command(r) == doc_clock_out(),
        path_of(r) == seq!["clock"@, "out"@],
        r.kind == TargetKind::Tool,
        r.target@ == "org-clock-out"@,
{
    let mut path: Vec<&'static str> = Vec::new();
    path.push("clock");
    path.push("out");
    let mut params: Vec<ParamSpec> = Vec::new();
    params.push(ParamSpec {
        name: "uri",
        server_name: "uri",
        required: false,
        repeated: false,
        kind: ParamKind::Positional,
        ty: ParamType::Uri,
        uri_rule: UriRule::EitherAccepted,
        server_value: ServerValue::Native,
        description: "Node URI (optional; defaults to active clock)",
    });
    params.push(ParamSpec {
        name: "at",
        server_name: "at",
        required: false,
        repeated: false,
        kind: ParamKind::KeyValue,
        ty: ParamType::IsoTimestamp,
        uri_rule: UriRule::Na,
        server_value: ServerValue::Native,
        description: "Clock-out timestamp (ISO 8601); defaults to now",
    });
    let r = CommandSpec {
        path,
        summary: "Clock out of the active clock",
        kind: TargetKind::Tool,
        target: "org-clock-out",
        params,
        output_shape: OutputShape::Tool { server_returns: ServerReturns::JsonObject, cli_data: "{\"success\":true}" },
        exit_codes: exit_standard(),
    };
    reveal(doc_clock_out);
    assert(path_of(r) =~= seq!["clock"@, "out"@]);
    assert(Seq::new(r.path@.len(), |i: int| Json::Str(r.path@[i]@)) =~= Seq::new(
        path_of(r).len(),
        |i: int| Json::Str(path_of(r)[i]),
    ));
    assert(Seq::new(r.params@.len(), |i: int| spec_param(r.params@[i])) =~= seq![param_doc("uri"@, "uri"@, false, false, "positional"@, "uri"@, "either"@, "Node URI (optional; defaults to active clock)"@, None), param_doc("at"@, "at"@, false, false, "key_value"@, "iso_timestamp"@, "n/a"@, "Clock-out timestamp (ISO 8601); defaults to now"@, None)]);
    r
}

/// The schema document of `clock add`.
#[verifier::opaque]
pub open spec fn doc_clock_add() -> Json {
    command_doc(
        seq!["clock"@, "add"@],
        "Add a clock entry to a node"@,
        tool_target("org-clock-add"@),
        seq![param_doc("uri"@, "uri"@, true, false, "positional"@, "uri"@, "either"@, "Node URI or identifier"@, None), param_doc("start"@, "start"@, true, false, "key_value"@, "iso_timestamp"@, "n/a"@, "Clock entry start timestamp (ISO 8601)"@, None), param_doc("end"@, "end"@, true, false, "key_value"@, "iso_timestamp"@, "n/a"@, "Clock entry end timestamp (ISO 8601)"@, None)],
        tool_output("json_object"@, "{\"success\":true}"@),
        standard_exits(),
    )
}

fn command_clock_add() -> (r: CommandSpec)
    ensures
        spec_command(r) == doc_clock_add(),
        path_of(r) == seq!["clock"@, "add"@],
        r.kind == TargetKind::Tool,
        r.target@ == "org-clock-add"@,
{
    let mut path: Vec<&'static str> = Vec::new();
    path.push("clock");
    path.push("add");
    let mut params: Vec<ParamSpec> = Vec::new();
    params.push(ParamSpec {
        name: "uri",
        server_name: "uri",
        required: true,
        repeated: false,
        kind: ParamKind::Positional,
        ty: ParamType::Uri,
        uri_rule: UriRule::EitherAccepted,
        server_value: ServerValue::Native,
        description: "Node URI or identifier",
    });
    params.push(ParamSpec {
        name: "start",
        server_name: "start",
        required: true,
        repeated: false,
        kind: ParamKind::KeyValue,
        ty: ParamType::IsoTimestamp,
        uri_rule: UriRule::Na,
        server_value: ServerValue::Native,
        description: "Clock entry start timestamp (ISO 8601)",
    });
    params.push(ParamSpec {
        name: "end",
        server_name: "end",
        required: true,
        repeated: false,
        kind: ParamKind::KeyValue,
        ty: ParamType::IsoTimestamp,
        uri_rule: UriRule::Na,
        server_value: ServerValue::Native,
        description: "Clock entry end timestamp (ISO 8601)",
    });
    let r = CommandSpec {
        path,
        summary: "Add a clock entry to a node",
        kind: TargetKind::Tool,
        target: "org-clock-add",
        params,
        output_shape: OutputShape::Tool { server_returns: ServerReturns::JsonObject, cli_data: "{\"success\":true}" },
        exit_codes: exit_standard(),
    };
    reveal(doc_clock_add);
    assert(path_of(r) =~= seq!["clock"@, "add"@]);
    assert(Seq::new(r.path@.len(), |i: int| Json::Str(r.path@[i]@)) =~= Seq::new(
        path_of(r).len(),
        |i: int| Json::Str(path_of(r)[i]),
    ));
    assert(Seq::new(r.params@.len(), |i: int| spec_param(r.params@[i])) =~= seq![param_doc("uri"@, "uri"@, true, false, "positional"@, "uri"@, "either"@, "Node URI or identifier"@, None), param_doc("start"@, "start"@, true, false, "key_value"@, "iso_timestamp"@, "n/a"@, "Clock entry start timestamp (ISO 8601)"@, None), param_doc("end"@, "end"@, true, false, "key_value"@, "iso_timestamp"@, "n/a"@, "Clock entry end timestamp (ISO 8601)"@, None)]);
    r
}

/// The schema document of `clock delete`.
#[verifier::opaque]
pub open spec fn doc_clock_delete() -> Json {
    command_doc(
        seq!["clock"@, "delete"@],
        "Delete a clock entry from a node"@,
        tool_target("org-clock-delete"@),
        seq![param_doc("uri"@, "uri"@, true, false, "positional"@, "uri"@, "either"@, "Node URI or identifier"@, None), param_doc("at"@, "at"@, true, false, "key_value"@, "iso_timestamp"@, "n/a"@, "Timestamp identifying the clock entry to delete"@, None)],
        tool_output("json_object"@, "{\"success\":true}"@),
        standard_exits(),
    )
}

fn command_clock_delete() -> (r: CommandSpec)
    ensures
        spec_command(r) == doc_clock_delete(),
        path_of(r) == seq!["clock"@, "delete"@],
        r.kind == TargetKind::Tool,
        r.target@ == "org-clock-delete"@,
{
    let mut path: Vec<&'static str> = Vec::new();
    path.push("clock");
    path.push("delete");
    let mut params: Vec<ParamSpec> = Vec::new();
    params.push(ParamSpec {
        name: "uri",
        server_name: "uri",
        required: true,
        repeated: false,
        kind: ParamKind::Positional,
        ty: ParamType::Uri,
        uri_rule: UriRule::EitherAccepted,
        server_value: ServerValue::Native,
        description: "Node URI or identifier",
    });
    params.push(ParamSpec {
        name: "at",
        server_name: "at",
        required: true,
        repeated: false,
        kind: ParamKind::KeyValue,
        ty: ParamType::IsoTimestamp,
        uri_rule: UriRule::Na,
        server_value: ServerValue::Native,
        description: "Timestamp identifying the clock entry to delete",
    });
    let r = CommandSpec {
        path,
        summary: "Delete a clock entry from a node",
        kind: TargetKind::Tool,
        target: "org-clock-delete",
        params,
        output_shape: OutputShape::Tool { server_returns: ServerReturns::JsonObject, cli_data: "{\"success\":true}" },
        exit_codes: exit_standard(),
    };
    reveal(doc_clock_delete);
    assert(path_of(r) =~= seq!["clock"@, "delete"@]);
    assert(Seq::new(r.path@.len(), |i: int| Json::Str(r.path@[i]@)) =~= Seq::new(
        path_of(r).len(),
        |i: int| Json::Str(path_of(r)[i]),
    ));
    assert(Seq::new(r.params@.len(), |i: int| spec_param(r.params@[i])) =~= seq![param_doc("uri"@, "uri"@, true, false, "positional"@, "uri"@, "either"@, "Node URI or identifier"@, None), param_doc("at"@, "at"@, true, false, "key_value"@, "iso_timestamp"@, "n/a"@, "Timestamp identifying the clock entry to delete"@, None)]);
    r
}

/// The schema document of `clock dangling`.
#[verifier::opaque]
pub open spec fn doc_clock_dangling() -> Json {
    command_doc(
        seq!["clock"@, "dangling"@],
        "List dangling (unclosed) clock entries"@,
        tool_target("org-clock-dangling"@),
        Seq::empty(),
        tool_output("json_object"@, "{\"entries\":[...]}"@),
        standard_exits(),
    )
}

fn command_clock_dangling() -> (r: CommandSpec)
    ensures
        spec_command(r) == doc_clock_dangling(),
        path_of(r) == seq!["clock"@, "dangling"@],
        r.kind == TargetKind::Tool,
        r.target@ == "org-clock-dangling"@,
{
    let mut path: Vec<&'static str> = Vec::new();
    path.push("clock");
    path.push("dangling");
    let mut params: Vec<ParamSpec> = Vec::new();

    let r = CommandSpec {
        path,
        summary: "List dangling (unclosed) clock entries",
        kind: TargetKind::Tool,
        target: "org-clock-dangling",
        params,
        output_shape: OutputShape::Tool { server_returns: ServerReturns::JsonObject, cli_data: "{\"entries\":[...]}" },
        exit_codes: exit_standard(),
    };
    reveal(doc_clock_dangling);
    assert(path_of(r) =~= seq!["clock"@, "dangling"@]);
    assert(Seq::new(r.path@.len(), |i: int| Json::Str(r.path@[i]@)) =~= Seq::new(
        path_of(r).len(),
        |i: int| Json::Str(path_of(r)[i]),
    ));
    assert(Seq::new(r.params@.len(), |i: int| spec_param(r.params@[i])) =~= Seq::empty());
    r
}

/// The schema document of `config todo`.
#[verifier::opaque]
pub open spec fn doc_config_todo() -> Json {
    command_doc(
        seq!["config"@, "todo"@],
        "Get configured TODO states"@,
        tool_target("org-config-todo"@),
        Seq::empty(),
        tool_output("json_object"@, "{\"states\":[...]}"@),
        standard_exits(),
    )
}

fn command_config_todo() -> (r: CommandSpec)
    ensures
        spec_command(r) == doc_config_todo(),
        path_of(r) == seq!["config"@, "todo"@],
        r.kind == TargetKind::Tool,
        r.target@ == "org-config-todo"@,
{
    let mut path: Vec<&'static str> = Vec::new();
    path.push("config");
    path.push("todo");
    let mut params: Vec<ParamSpec> = Vec::new();

    let r = CommandSpec {
        path,
        summary: "Get configured TODO states",
        kind: TargetKind::Tool,
        target: "org-config-todo",
        params,
        output_shape: OutputShape::Tool { server_returns: ServerReturns::JsonObject, cli_data: "{\"states\":[...]}" },
        exit_codes: exit_standard(),
    };
    reveal(doc_config_todo);
    assert(path_of(r) =~= seq!["config"@, "todo"@]);
    assert(Seq::new(r.path@.len(), |i: int| Json::Str(r.path@[i]@)) =~= Seq::new(
        path_of(r).len(),
        |i: int| Json::Str(path_of(r)[i]),
    ));
    assert(Seq::new(r.params@.len(), |i: int| spec_param(r.params@[i])) =~= Seq::empty());
    r
}

/// The schema document of `config tags`.
#[verifier::opaque]
pub open spec fn doc_config_tags() -> Json {
    command_doc(
        seq!["config"@, "tags"@],
        "Get configured tags"@,
        tool_target("org-config-tags"@),
        Seq::empty(),
        tool_output("json_object"@, "{\"tags\":[...]}"@),
        standard_exits(),
    )
}

fn command_config_tags() -> (r: CommandSpec)
    ensures
        spec_command(r) == doc_config_tags(),
        path_of(r) == seq!["config"@, "tags"@],
        r.kind == TargetKind::Tool,
        r.target@ == "org-config-tags"@,
{
    let mut path: Vec<&'static str> = Vec::new();
    path.push("config");
    path.push("tags");
    let mut params: Vec<ParamSpec> = Vec::new();

    let r = CommandSpec {
        path,
        summary: "Get configured tags",
        kind: TargetKind::Tool,
        target: "org-config-tags",
        params,
        output_shape: OutputShape::Tool { server_returns: ServerReturns::JsonObject, cli_data: "{\"tags\":[...]}" },
        exit_codes: exit_standard(),
    };
    reveal(doc_config_tags);
    assert(path_of(r) =~= seq!["config"@, "tags"@]);
    assert(Seq::new(r.path@.len(), |i: int| Json::Str(r.path@[i]@)) =~= Seq::new(
        path_of(r).len(),
        |i: int| Json::Str(path_of(r)[i]),
    ));
    assert(Seq::new(r.params@.len(), |i: int| spec_param(r.params@[i])) =~= Seq::empty());
    r
}

/// The schema document of `config tag-candidates`.
#[verifier::opaque]
pub open spec fn doc_config_tag_candidates() -> Json {
    command_doc(
        seq!["config"@, "tag-candidates"@],
        "Get tag candidates"@,
        tool_target("org-config-tag-candidates"@),
        Seq::empty(),
        tool_output("json_object"@, "{\"candidates\":[...]}"@),
        standard_exits(),
    )
}

fn command_config_tag_candidates() -> (r: CommandSpec)
    ensures
        spec_command(r) == doc_config_tag_candidates(),
        path_of(r) == seq!["config"@, "tag-candidates"@],
        r.kind == TargetKind::Tool,
        r.target@ == "org-config-tag-candidates"@,
{
    let mut path: Vec<&'static str> = Vec::new();
    path.push("config");
    path.push("tag-candidates");
    let mut params: Vec<ParamSpec> = Vec::new();

    let r = CommandSpec {
        path,
        summary: "Get tag candidates",
        kind: TargetKind::Tool,
        target: "org-config-tag-candidates",
        params,
        output_shape: OutputShape::Tool { server_returns: ServerReturns::JsonObject, cli_data: "{\"candidates\":[...]}" },
        exit_codes: exit_standard(),
    };
    reveal(doc_config_tag_candidates);
    assert(path_of(r) =~= seq!["config"@, "tag-candidates"@]);
    assert(Seq::new(r.path@.len(), |i: int| Json::Str(r.path@[i]@)) =~= Seq::new(
        path_of(r).len(),
        |i: int| Json::Str(path_of(r)[i]),
    ));
    assert(Seq::new(r.params@.len(), |i: int| spec_param(r.params@[i])) =~= Seq::empty());
    r
}

/// The schema document of `config priority`.
#[verifier::opaque]
pub open spec fn doc_config_priority() -> Json {
    command_doc(
        seq!["config"@, "priority"@],
        "Get priority configuration"@,
        tool_target("org-config-priority"@),
        Seq::empty(),
        tool_output("json_object"@, "{\"priorities\":[...]}"@),
        standard_exits(),
    )
}

fn command_config_priority() -> (r: CommandSpec)
    ensures
        spec_command(r) == doc_config_priority(),
        path_of(r) == seq!["config"@, "priority"@],
        r.kind == TargetKind::Tool,
        r.target@ == "org-config-priority"@,
{
    let mut path: Vec<&'static str> = Vec::new();
    path.push("config");
    path.push("priority");
    let mut params: Vec<ParamSpec> = Vec::new();

    let r = CommandSpec {
        path,
        summary: "Get priority configuration",
        kind: TargetKind::Tool,
        target: "org-config-priority",
        params,
        output_shape: OutputShape::Tool { server_returns: ServerReturns::JsonObject, cli_data: "{\"priorities\":[...]}" },
        exit_codes: exit_standard(),
    };
    reveal(doc_config_priority);
    assert(path_of(r) =~= seq!["config"@, "priority"@]);
    assert(Seq::new(r.path@.len(), |i: int| Json::Str(r.path@[i]@)) =~= Seq::new(
        path_of(r).len(),
        |i: int| Json::Str(path_of(r)[i]),
    ));
    assert(Seq::new(r.params@.len(), |i: int| spec_param(r.params@[i])) =~= Seq::empty());
    r
}

/// The schema document of `config files`.
#[verifier::opaque]
pub open spec fn doc_config_files() -> Json {
    command_doc(
        seq!["config"@, "files"@],
        "Get configured org files"@,
        tool_target("org-config-files"@),
        Seq::empty(),
        tool_output("json_object"@, "{\"files\":[...]}"@),
        standard_exits(),
    )
}

fn command_config_files() -> (r: CommandSpec)
    ensures
        spec_command(r) == doc_config_files(),
        path_of(r) == seq!["config"@, "files"@],
        r.kind == TargetKind::Tool,
        r.target@ == "org-config-files"@,
{
    let mut path: Vec<&'static str> = Vec::new();
    path.push("config");
    path.push("files");
    let mut params: Vec<ParamSpec> = Vec::new();

    let r = CommandSpec {
        path,
        summary: "Get configured org files",
        kind: TargetKind::Tool,
        target: "org-config-files",
        params,
        output_shape: OutputShape::Tool { server_returns: ServerReturns::JsonObject, cli_data: "{\"files\":[...]}" },
        exit_codes: exit_standard(),
    };
    reveal(doc_config_files);
    assert(path_of(r) =~= seq!["config"@, "files"@]);
    assert(Seq::new(r.path@.len(), |i: int| Json::Str(r.path@[i]@)) =~= Seq::new(
        path_of(r).len(),
        |i: int| Json::Str(path_of(r)[i]),
    ));
    assert(Seq::new(r.params@.len(), |i: int| spec_param(r.params@[i])) =~= Seq::empty());
    r
}

/// The schema document of `config clock`.
#[verifier::opaque]
pub open spec fn doc_config_clock() -> Json {
    command_doc(
        seq!["config"@, "clock"@],
        "Get clock configuration"@,
        tool_target("org-config-clock"@),
        Seq::empty(),
        tool_output("json_object"@, "{\"config\":{...}}"@),
        standard_exits(),
    )
}

fn command_config_clock() -> (r: CommandSpec)
    ensures
        spec_command(r) == doc_config_clock(),
        path_of(r) == seq!["config"@, "clock"@],
        r.kind == TargetKind::Tool,
        r.target@ == "org-config-clock"@,
{
    let mut path: Vec<&'static str> = Vec::new();
    path.push("config");
    path.push("clock");
    let mut params: Vec<ParamSpec> = Vec::new();

    let r = CommandSpec {
        path,
        summary: "Get clock configuration",
        kind: TargetKind::Tool,
        target: "org-config-clock",
        params,
        output_shape: OutputShape::Tool { server_returns: ServerReturns::JsonObject, cli_data: "{\"config\":{...}}" },
        exit_codes: exit_standard(),
    };
    reveal(doc_config_clock);
    assert(path_of(r) =~= seq!["config"@, "clock"@]);
    assert(Seq::new(r.path@.len(), |i: int| Json::Str(r.path@[i]@)) =~= Seq::new(
        path_of(r).len(),
        |i: int| Json::Str(path_of(r)[i]),
    ));
    assert(Seq::new(r.params@.len(), |i: int| spec_param(r.params@[i])) =~= Seq::empty());
    r
}

/// The schema document of `tools list`.
#[verifier::opaque]
pub open spec fn doc_tools_list() -> Json {
    command_doc(
        seq!["tools"@, "list"@],
        "List all tools exposed by the MCP server"@,
        internal_target(),
        Seq::empty(),
        internal_output("{\"tools\":[{\"name\":\"...\",\"description\":\"...\",\"inputSchema\":{}}]}"@),
        standard_exits(),
    )
}

fn command_tools_list() -> (r: CommandSpec)
    ensures
        spec_command(r) == doc_tools_list(),
        path_of(r) == seq!["tools"@, "list"@],
        r.kind == TargetKind::Internal,
        r.target@ == ""@,
{
    let mut path: Vec<&'static str> = Vec::new();
    path.push("tools");
    path.push("list");
    let mut params: Vec<ParamSpec> = Vec::new();

    let r = CommandSpec {
        path,
        summary: "List all tools exposed by the MCP server",
        kind: TargetKind::Internal,
        target: "",
        params,
        output_shape: OutputShape::Internal { cli_data: "{\"tools\":[{\"name\":\"...\",\"description\":\"...\",\"inputSchema\":{}}]}" },
        exit_codes: exit_standard(),
    };
    reveal(doc_tools_list);
    assert(path_of(r) =~= seq!["tools"@, "list"@]);
    assert(Seq::new(r.path@.len(), |i: int| Json::Str(r.path@[i]@)) =~= Seq::new(
        path_of(r).len(),
        |i: int| Json::Str(path_of(r)[i]),
    ));
    assert(Seq::new(r.params@.len(), |i: int| spec_param(r.params@[i])) =~= Seq::empty());
    r
}

/// The schema document of `tools call`.
#[verifier::opaque]
pub open spec fn doc_tools_call() -> Json {
    command_doc(
        seq!["tools"@, "call"@],
        "Call a named MCP tool with optional JSON arguments"@,
        internal_target(),
        seq![param_doc("name"@, "name"@, true, false, "positional"@, "string"@, "n/a"@, "Name of the MCP tool to call"@, None), param_doc("args"@, "arguments"@, false, false, "key_value"@, "json"@, "n/a"@, "JSON object of arguments to pass to the tool"@, None)],
        internal_output("{\"tool\":\"...\",\"result\":{...}}"@),
        standard_exits(),
    )
}

fn command_tools_call() -> (r: CommandSpec)
    ensures
        spec_command(r) == doc_tools_call(),
        path_of(r) == seq!["tools"@, "call"@],
        r.kind == TargetKind::Internal,
        r.target@ == ""@,
{
    let mut path: Vec<&'static str> = Vec::new();
    path.push("tools");
    path.push("call");
    let mut params: Vec<ParamSpec> = Vec::new();
    params.push(ParamSpec {
        name: "name",
        server_name: "name",
        required: true,
        repeated: false,
        kind: ParamKind::Positional,
        ty: ParamType::String,
        uri_rule: UriRule::Na,
        server_value: ServerValue::Native,
        description: "Name of the MCP tool to call",
    });
    params.push(ParamSpec {
        name: "args",
        server_name: "arguments",
        required: false,
        repeated: false,
        kind: ParamKind::KeyValue,
        ty: ParamType::Json,
        uri_rule: UriRule::Na,
        server_value: ServerValue::Native,
        description: "JSON object of arguments to pass to the tool",
    });
    let r = CommandSpec {
        path,
        summary: "Call a named MCP tool with optional JSON arguments",
        kind: TargetKind::Internal,
        target: "",
        params,
        output_shape: OutputShape::Internal { cli_data: "{\"tool\":\"...\",\"result\":{...}}" },
        exit_codes: exit_standard(),
    };
    reveal(doc_tools_call);
    assert(path_of(r) =~= seq!["tools"@, "call"@]);
    assert(Seq::new(r.path@.len(), |i: int| Json::Str(r.path@[i]@)) =~= Seq::new(
        path_of(r).len(),
        |i: int| Json::Str(path_of(r)[i]),
    ));
    assert(Seq::new(r.params@.len(), |i: int| spec_param(r.params@[i])) =~= seq![param_doc("name"@, "name"@, true, false, "positional"@, "string"@, "n/a"@, "Name of the MCP tool to call"@, None), param_doc("args"@, "arguments"@, false, false, "key_value"@, "json"@, "n/a"@, "JSON object of arguments to pass to the tool"@, None)]);
    r
}

/// The schema document of `schema`.
#[verifier::opaque]
pub open spec fn doc_schema() -> Json {
    command_doc(
        seq!["schema"@],
        "Emit machine-readable metadata for all CLI commands"@,
        internal_target(),
        Seq::empty(),
        internal_output("{\"version\":1,\"commands\":[...]}"@),
        internal_exits(),
    )
}

fn command_schema() -> (r: CommandSpec)
    ensures
        spec_command(r) == doc_schema(),
        path_of(r) == seq!["schema"@],
        r.kind == TargetKind::Internal,
        r.target@ == ""@,
{
    let mut path: Vec<&'static str> = Vec::new();
    path.push("schema");
    let mut params: Vec<ParamSpec> = Vec::new();

    let r = CommandSpec {
        path,
        summary: "Emit machine-readable metadata for all CLI commands",
        kind: TargetKind::Internal,
        target: "",
        params,
        output_shape: OutputShape::Internal { cli_data: "{\"version\":1,\"commands\":[...]}" },
        exit_codes: exit_internal(),
    };
    reveal(doc_schema);
    assert(path_of(r) =~= seq!["schema"@]);
    assert(Seq::new(r.path@.len(), |i: int| Json::Str(r.path@[i]@)) =~= Seq::new(
        path_of(r).len(),
        |i: int| Json::Str(path_of(r)[i]),
    ));
    assert(Seq::new(r.params@.len(), |i: int| spec_param(r.params@[i])) =~= Seq::empty());
    r
}

/// The schema document of `schema <path>`.
#[verifier::opaque]
pub open spec fn doc_schema_path() -> Json {
    command_doc(
        seq!["schema"@, "<path>"@],
        "Emit machine-readable metadata for a single CLI command"@,
        internal_target(),
        seq![param_doc("path"@, ""@, true, false, "positional"@, "string"@, "n/a"@, "Command path segments (e.g. 'edit body')"@, None)],
        internal_output("{\"command\":{...}}"@),
        internal_exits(),
    )
}

fn command_schema_path() -> (r: CommandSpec)
    ensures
        spec_command(r) == doc_schema_path(),
        path_of(r) == seq!["schema"@, "<path>"@],
        r.kind == TargetKind::Internal,
        r.target@ == ""@,
{
    let mut path: Vec<&'static str> = Vec::new();
    path.push("schema");
    path.push("<path>");
    let mut params: Vec<ParamSpec> = Vec::new();
    params.push(ParamSpec {
        name: "path",
        server_name: "",
        required: true,
        repeated: false,
        kind: ParamKind::Positional,
        ty: ParamType::String,
        uri_rule: UriRule::Na,
        server_value: ServerValue::Native,
        description: "Command path segments (e.g. 'edit body')",
    });
    let r = CommandSpec {
        path,
        summary: "Emit machine-readable metadata for a single CLI command",
        kind: TargetKind::Internal,
        target: "",
        params,
        output_shape: OutputShape::Internal { cli_data: "{\"command\":{...}}" },
        exit_codes: exit_internal(),
    };
    reveal(doc_schema_path);
    assert(path_of(r) =~= seq!["schema"@, "<path>"@]);
    assert(Seq::new(r.path@.len(), |i: int| Json::Str(r.path@[i]@)) =~= Seq::new(
        path_of(r).len(),
        |i: int| Json::Str(path_of(r)[i]),
    ));
    assert(Seq::new(r.params@.len(), |i: int| spec_param(r.params@[i])) =~= seq![param_doc("path"@, ""@, true, false, "positional"@, "string"@, "n/a"@, "Command path segments (e.g. 'edit body')"@, None)]);
    r
}

/// The schema documents of all commands, in registry order.
#[verifier::opaque]
pub open spec fn registry_docs() -> Seq<Json> {
    seq![
        doc_read(),
        doc_read_headline(),
        doc_outline(),
        doc_query(),
        doc_query_inbox(),
        doc_query_next(),
        doc_query_backlog(),
        doc_todo_state(),
        doc_todo_add(),
        doc_edit_rename(),
        doc_edit_body(),
        doc_edit_properties(),
        doc_edit_tags(),
        doc_edit_priority(),
        doc_edit_scheduled(),
        doc_edit_deadline(),
        doc_edit_log_note(),
        doc_clock_status(),
        doc_clock_in(),
        doc_clock_out(),
        doc_clock_add(),
        doc_clock_delete(),
        doc_clock_dangling(),
        doc_config_todo(),
        doc_config_tags(),
        doc_config_tag_candidates(),
        doc_config_priority(),
        doc_config_files(),
        doc_config_clock(),
        doc_tools_list(),
        doc_tools_call(),
        doc_schema(),
        doc_schema_path(),
    ]
}

/// The path of every command, in registry order.
#[verifier::opaque]
pub open spec fn registry_paths() -> Seq<Seq<Seq<char>>> {
    seq![
        seq!["read"@],
        seq!["read-headline"@],
        seq!["outline"@],
        seq!["query"@],
        seq!["query"@, "inbox"@],
        seq!["query"@, "next"@],
        seq!["query"@, "backlog"@],
        seq!["todo"@, "state"@],
        seq!["todo"@, "add"@],
        seq!["edit"@, "rename"@],
        seq!["edit"@, "body"@],
        seq!["edit"@, "properties"@],
        seq!["edit"@, "tags"@],
        seq!["edit"@, "priority"@],
        seq!["edit"@, "scheduled"@],
        seq!["edit"@, "deadline"@],
        seq!["edit"@, "log-note"@],
        seq!["clock"@, "status"@],
        seq!["clock"@, "in"@],
        seq!["clock"@, "out"@],
        seq!["clock"@, "add"@],
        seq!["clock"@, "delete"@],
        seq!["clock"@, "dangling"@],
        seq!["config"@, "todo"@],
        seq!["config"@, "tags"@],
        seq!["config"@, "tag-candidates"@],
        seq!["config"@, "priority"@],
        seq!["config"@, "files"@],
        seq!["config"@, "clock"@],
        seq!["tools"@, "list"@],
        seq!["tools"@, "call"@],
        seq!["schema"@],
        seq!["schema"@, "<path>"@],
    ]
}

/// The target kind and target name of every command, in registry order.
#[verifier::opaque]
pub open spec fn registry_targets() -> Seq<(TargetKind, Seq<char>)> {
    seq![
        (TargetKind::Tool, "org-read"@),
        (TargetKind::Tool, "org-read-headline"@),
        (TargetKind::Tool, "org-outline"@),
        (TargetKind::Tool, "org-ql-query"@),
        (TargetKind::Tool, "query-inbox"@),
        (TargetKind::Tool, "query-next"@),
        (TargetKind::Tool, "query-backlog"@),
        (TargetKind::Tool, "org-update-todo-state"@),
        (TargetKind::Tool, "org-add-todo"@),
        (TargetKind::Tool, "org-edit-rename"@),
        (TargetKind::Tool, "org-edit-body"@),
        (TargetKind::Tool, "org-edit-properties"@),
        (TargetKind::Tool, "org-edit-tags"@),
        (TargetKind::Tool, "org-edit-priority"@),
        (TargetKind::Tool, "org-edit-scheduled"@),
        (TargetKind::Tool, "org-edit-deadline"@),
        (TargetKind::Tool, "org-edit-log-note"@),
        (TargetKind::Tool, "org-clock-status"@),
        (TargetKind::Tool, "org-clock-in"@),
        (TargetKind::Tool, "org-clock-out"@),
        (TargetKind::Tool, "org-clock-add"@),
        (TargetKind::Tool, "org-clock-delete"@),
        (TargetKind::Tool, "org-clock-dangling"@),
        (TargetKind::Tool, "org-config-todo"@),
        (TargetKind::Tool, "org-config-tags"@),
        (TargetKind::Tool, "org-config-tag-candidates"@),
        (TargetKind::Tool, "org-config-priority"@),
        (TargetKind::Tool, "org-config-files"@),
        (TargetKind::Tool, "org-config-clock"@),
        (TargetKind::Internal, ""@),
        (TargetKind::Internal, ""@),
        (TargetKind::Internal, ""@),
        (TargetKind::Internal, ""@),
    ]
}

/// The documents, paths and targets of a list of commands.
#[verifier::opaque]
pub open spec fn docs_of(s: Seq<CommandSpec>) -> (Seq<Json>, Seq<Seq<Seq<char>>>, Seq<(TargetKind, Seq<char>)>) {
    (
        Seq::new(s.len(), |i: int| spec_command(s[i])),
        Seq::new(s.len(), |i: int| path_of(s[i])),
        Seq::new(s.len(), |i: int| (s[i].kind, s[i].target@)),
    )
}

fn push_command(v: &mut Vec<CommandSpec>, c: CommandSpec, Ghost(k): Ghost<int>)
    requires
        0 <= k < registry_docs().len(),
        registry_paths().len() == registry_docs().len(),
        registry_targets().len() == registry_docs().len(),
        old(v)@.len() == k,
        docs_of(old(v)@) == (registry_docs().take(k), registry_paths().take(k), registry_targets().take(k)),
        spec_command(c) == registry_docs()[k],
        path_of(c) == registry_paths()[k],
        (c.kind, c.target@) == registry_targets()[k],
    ensures
        final(v)@.len() == k + 1,
        docs_of(final(v)@) == (registry_docs().take(k + 1), registry_paths().take(k + 1), registry_targets().take(k + 1)),
{
    reveal(docs_of);
    v.push(c);
    assert(docs_of(v@).0 =~= registry_docs().take(k + 1));
    assert(docs_of(v@).1 =~= registry_paths().take(k + 1));
    assert(docs_of(v@).2 =~= registry_targets().take(k + 1));
}

/// Every command of the CLI, in a fixed order.
#[verifier::rlimit(30)]
pub fn commands() -> (r: Vec<CommandSpec>)
    ensures
        r@.len() == 33,
        docs_of(r@) == (registry_docs(), registry_paths(), registry_targets()),
{
    proof {
        reveal(registry_docs);
        reveal(registry_paths);
        reveal(registry_targets);
    }
    let mut v: Vec<CommandSpec> = Vec::new();
    assert(docs_of(v@) == (registry_docs().take(0), registry_paths().take(0), registry_targets().take(0))) by {
        reveal(docs_of);
        assert(docs_of(v@).0 =~= registry_docs().take(0));
        assert(docs_of(v@).1 =~= registry_paths().take(0));
        assert(docs_of(v@).2 =~= registry_targets().take(0));
    }
    let c = command_read();
    push_command(&mut v, c, Ghost(0));
    let c = command_read_headline();
    push_command(&mut v, c, Ghost(1));
    let c = command_outline();
    push_command(&mut v, c, Ghost(2));
    let c = command_query();
    push_command(&mut v, c, Ghost(3));
    let c = command_query_inbox();
    push_command(&mut v, c, Ghost(4));
    let c = command_query_next();
    push_command(&mut v, c, Ghost(5));
    let c = command_query_backlog();
    push_command(&mut v, c, Ghost(6));
    let c = command_todo_state();
    push_command(&mut v, c, Ghost(7));
    let c = command_todo_add();
    push_command(&mut v, c, Ghost(8));
    let c = command_edit_rename();
    push_command(&mut v, c, Ghost(9));
    let c = command_edit_body();
    push_command(&mut v, c, Ghost(10));
    let c = command_edit_properties();
    push_command(&mut v, c, Ghost(11));
    let c = command_edit_tags();
    push_command(&mut v, c, Ghost(12));
    let c = command_edit_priority();
    push_command(&mut v, c, Ghost(13));
    let c = command_edit_scheduled();
    push_command(&mut v, c, Ghost(14));
    let c = command_edit_deadline();
    push_command(&mut v, c, Ghost(15));
    let c = command_edit_log_note();
    push_command(&mut v, c, Ghost(16));
    let c = command_clock_status();
    push_command(&mut v, c, Ghost(17));
    let c = command_clock_in();
    push_command(&mut v, c, Ghost(18));
    let c = command_clock_out();
    push_command(&mut v, c, Ghost(19));
    let c = command_clock_add();
    push_command(&mut v, c, Ghost(20));
    let c = command_clock_delete();
    push_command(&mut v, c, Ghost(21));
    let c = command_clock_dangling();
    push_command(&mut v, c, Ghost(22));
    let c = command_config_todo();
    push_command(&mut v, c, Ghost(23));
    let c = command_config_tags();
    push_command(&mut v, c, Ghost(24));
    let c = command_config_tag_candidates();
    push_command(&mut v, c, Ghost(25));
    let c = command_config_priority();
    push_command(&mut v, c, Ghost(26));
    let c = command_config_files();
    push_command(&mut v, c, Ghost(27));
    let c = command_config_clock();
    push_command(&mut v, c, Ghost(28));
    let c = command_tools_list();
    push_command(&mut v, c, Ghost(29));
    let c = command_tools_call();
    push_command(&mut v, c, Ghost(30));
    let c = command_schema();
    push_command(&mut v, c, Ghost(31));
    let c = command_schema_path();
    push_command(&mut v, c, Ghost(32));
    assert(registry_docs().take(33) =~= registry_docs());
    assert(registry_paths().take(33) =~= registry_paths());
    assert(registry_targets().take(33) =~= registry_targets());
    v
}


/// The `org schema` payload: the version and every command's document.
pub open spec fn spec_schema_all() -> Json {
    Json::Object(seq![("version"@, Json::Int(1)), ("commands"@, Json::Array(registry_docs()))])
}

/// The first position at or after `i` whose path is `p`.
pub open spec fn find_path_from(paths: Seq<Seq<Seq<char>>>, p: Seq<Seq<char>>, i: int) -> Option<int>
    decreases paths.len() - i,
{
    if i < 0 || i >= paths.len() {
        None
    } else if paths[i] == p {
        Some(i)
    } else {
        find_path_from(paths, p, i + 1)
    }
}

/// The position of the command with path `p` in the registry.
pub open spec fn find_path(p: Seq<Seq<char>>) -> Option<int> {
    find_path_from(registry_paths(), p, 0)
}

proof fn lemma_find_path_from(paths: Seq<Seq<Seq<char>>>, p: Seq<Seq<char>>, i: int)
    requires
        0 <= i,
    ensures
        find_path_from(paths, p, i) matches Some(k) ==> i <= k < paths.len() && paths[k] == p,
        find_path_from(paths, p, i) is None ==> forall|k: int| i <= k < paths.len() ==> paths[k] != p,
    decreases paths.len() - i,
{
    if i < paths.len() && paths[i] != p {
        lemma_find_path_from(paths, p, i + 1);
    }
}

/// Serializes the whole registry as the `org schema` payload.
pub fn serialize_all() -> (r: JsonValue)
    ensures
        model(r) == spec_schema_all(),
{
    let cmds = commands();
    let mut items = ArrayBuilder::new();
    let mut i: usize = 0;
    proof {
        reveal(docs_of);
    }
    while i < cmds.len()
        invariant
            i <= cmds@.len(),
            Seq::new(cmds@.len(), |k: int| spec_command(cmds@[k])) == registry_docs(),
            items.items() =~= registry_docs().take(i as int),
        decreases cmds@.len() - i,
    {
        items.push(serialize_command(&cmds[i]));
        assert(registry_docs()[i as int] == spec_command(cmds@[i as int]));
        i = i + 1;
    }
    assert(registry_docs().take(cmds@.len() as int) =~= registry_docs());
    let mut b = ObjectBuilder::new();
    b.add("version", JsonValue::Int(1));
    b.add("commands", items.build());
    let r = b.build();
    assert(b.members() =~= seq![("version"@, Json::Int(1)), ("commands"@, Json::Array(registry_docs()))]);
    r
}

fn same_path(a: &Vec<&'static str>, b: &[&str]) -> (r: bool)
    ensures
        r == (str_views(a@) == str_views(b@)),
{
    if a.len() != b.len() {
        assert(str_views(a@).len() != str_views(b@).len());
        return false;
    }
    let mut i: usize = 0;
    while i < a.len()
        invariant
            a@.len() == b@.len(),
            i <= a@.len(),
            forall|k: int| 0 <= k < i ==> a@[k]@ == b@[k]@,
        decreases a@.len() - i,
    {
        if !str_eq(a[i], b[i]) {
            assert(str_views(a@)[i as int] != str_views(b@)[i as int]);
            return false;
        }
        i = i + 1;
    }
    assert(str_views(a@) =~= str_views(b@));
    true
}

/// Looks up the command with the given path and serializes it as the
/// `org schema <path>` payload; `None` when no command has that path.
pub fn serialize_one(path: &[&str]) -> (r: Option<JsonValue>)
    ensures
        match find_path(str_views(path@)) {
            Some(i) => (r matches Some(v) && model(v) == Json::Object(
                seq![("command"@, registry_docs()[i])],
            )),
            None => r is None,
        },
{
    let cmds = commands();
    let ghost p = str_views(path@);
    proof {
        reveal(docs_of);
        lemma_find_path_from(registry_paths(), p, 0);
    }
    let mut i: usize = 0;
    while i < cmds.len()
        invariant
            i <= cmds@.len(),
            p == str_views(path@),
            cmds@.len() == registry_paths().len(),
            Seq::new(cmds@.len(), |k: int| spec_command(cmds@[k])) == registry_docs(),
            Seq::new(cmds@.len(), |k: int| path_of(cmds@[k])) == registry_paths(),
            find_path(p) == find_path_from(registry_paths(), p, i as int),
        decreases cmds@.len() - i,
    {
        assert(registry_paths()[i as int] == path_of(cmds@[i as int]));
        if same_path(&cmds[i].path, path) {
            let doc = serialize_command(&cmds[i]);
            let mut b = ObjectBuilder::new();
            b.add("command", doc);
            let r = b.build();
            assert(registry_docs()[i as int] == spec_command(cmds@[i as int]));
            assert(b.members() =~= seq![("command"@, registry_docs()[i as int])]);
            return Some(r);
        }
        i = i + 1;
    }
    None
}

proof fn lemma_path_found_0()
    ensures
        find_path(registry_paths()[0]) == Some(0int),
{
    reveal(registry_paths);
    reveal_with_fuel(find_path_from, 2);
    assert(registry_paths().len() == 33);
}

proof fn lemma_path_found_1()
    ensures
        find_path(registry_paths()[1]) == Some(1int),
{
    reveal(registry_paths);
    reveal_strlit("read");
    reveal_strlit("read-headline");
    reveal_with_fuel(find_path_from, 3);
    assert(registry_paths().len() == 33);
        assert(registry_paths()[0][0].len() != registry_paths()[1][0].len());
}

proof fn lemma_path_found_2()
    ensures
        find_path(registry_paths()[2]) == Some(2int),
{
    reveal(registry_paths);
    reveal_strlit("outline");
    reveal_strlit("read");
    reveal_strlit("read-headline");
    reveal_with_fuel(find_path_from, 4);
    assert(registry_paths().len() == 33);
        assert(registry_paths()[0][0].len() != registry_paths()[2][0].len());
        assert(registry_paths()[1][0].len() != registry_paths()[2][0].len());
}

proof fn lemma_path_found_3()
    ensures
        find_path(registry_paths()[3]) == Some(3int),
{
    reveal(registry_paths);
    reveal_strlit("outline");
    reveal_strlit("query");
    reveal_strlit("read");
    reveal_strlit("read-headline");
    reveal_with_fuel(find_path_from, 5);
    assert(registry_paths().len() == 33);
        assert(registry_paths()[0][0].len() != registry_paths()[3][0].len());
        assert(registry_paths()[1][0].len() != registry_paths()[3][0].len());
        assert(registry_paths()[2][0].len() != registry_paths()[3][0].len());
}

proof fn lemma_path_found_4()
    ensures
        find_path(registry_paths()[4]) == Some(4int),
{
    reveal(registry_paths);
    reveal_with_fuel(find_path_from, 6);
    assert(registry_paths().len() == 33);
        assert(registry_paths()[0].len() != registry_paths()[4].len());
        assert(registry_paths()[1].len() != registry_paths()[4].len());
        assert(registry_paths()[2].len() != registry_paths()[4].len());
        assert(registry_paths()[3].len() != registry_paths()[4].len());
}

proof fn lemma_path_found_5()
    ensures
        find_path(registry_paths()[5]) == Some(5int),
{
    reveal(registry_paths);
    reveal_strlit("inbox");
    reveal_strlit("next");
    reveal_with_fuel(find_path_from, 7);
    assert(registry_paths().len() == 33);
        assert(registry_paths()[0].len() != registry_paths()[5].len());
        assert(registry_paths()[1].len() != registry_paths()[5].len());
        assert(registry_paths()[2].len() != registry_paths()[5].len());
        assert(registry_paths()[3].len() != registry_paths()[5].len());
        assert(registry_paths()[4][1].len() != registry_paths()[5][1].len());
}

proof fn lemma_path_found_6()
    ensures
        find_path(registry_paths()[6]) == Some(6int),
{
    reveal(registry_paths);
    reveal_strlit("backlog");
    reveal_strlit("inbox");
    reveal_strlit("next");
    reveal_with_fuel(find_path_from, 8);
    assert(registry_paths().len() == 33);
        assert(registry_paths()[0].len() != registry_paths()[6].len());
        assert(registry_paths()[1].len() != registry_paths()[6].len());
        assert(registry_paths()[2].len() != registry_paths()[6].len());
        assert(registry_paths()[3].len() != registry_paths()[6].len());
        assert(registry_paths()[4][1].len() != registry_paths()[6][1].len());
        assert(registry_paths()[5][1].len() != registry_paths()[6][1].len());
}

proof fn lemma_path_found_7()
    ensures
        find_path(registry_paths()[7]) == Some(7int),
{
    reveal(registry_paths);
    reveal_strlit("query");
    reveal_strlit("todo");
    reveal_with_fuel(find_path_from, 9);
    assert(registry_paths().len() == 33);
        assert(registry_paths()[0].len() != registry_paths()[7].len());
        assert(registry_paths()[1].len() != registry_paths()[7].len());
        assert(registry_paths()[2].len() != registry_paths()[7].len());
        assert(registry_paths()[3].len() != registry_paths()[7].len());
        assert(registry_paths()[4][0].len() != registry_paths()[7][0].len());
        assert(registry_paths()[5][0].len() != registry_paths()[7][0].len());
        assert(registry_paths()[6][0].len() != registry_paths()[7][0].len());
}

proof fn lemma_path_found_8()
    ensures
        find_path(registry_paths()[8]) == Some(8int),
{
    reveal(registry_paths);
    reveal_strlit("add");
    reveal_strlit("query");
    reveal_strlit("state");
    reveal_strlit("todo");
    reveal_with_fuel(find_path_from, 10);
    assert(registry_paths().len() == 33);
        assert(registry_paths()[0].len() != registry_paths()[8].len());
        assert(registry_paths()[1].len() != registry_paths()[8].len());
        assert(registry_paths()[2].len() != registry_paths()[8].len());
        assert(registry_paths()[3].len() != registry_paths()[8].len());
        assert(registry_paths()[4][0].len() != registry_paths()[8][0].len());
        assert(registry_paths()[5][0].len() != registry_paths()[8][0].len());
        assert(registry_paths()[6][0].len() != registry_paths()[8][0].len());
        assert(registry_paths()[7][1].len() != registry_paths()[8][1].len());
}

proof fn lemma_path_found_9()
    ensures
        find_path(registry_paths()[9]) == Some(9int),
{
    reveal(registry_paths);
    reveal_strlit("edit");
    reveal_strlit("query");
    reveal_strlit("todo");
    reveal_with_fuel(find_path_from, 11);
    assert(registry_paths().len() == 33);
        assert(registry_paths()[0].len() != registry_paths()[9].len());
        assert(registry_paths()[1].len() != registry_paths()[9].len());
        assert(registry_paths()[2].len() != registry_paths()[9].len());
        assert(registry_paths()[3].len() != registry_paths()[9].len());
        assert(registry_paths()[4][0].len() != registry_paths()[9][0].len());
        assert(registry_paths()[5][0].len() != registry_paths()[9][0].len());
        assert(registry_paths()[6][0].len() != registry_paths()[9][0].len());
        assert(registry_paths()[7][0][0] != registry_paths()[9][0][0]);
        assert(registry_paths()[8][0][0] != registry_paths()[9][0][0]);
}

proof fn lemma_path_found_10()
    ensures
        find_path(registry_paths()[10]) == Some(10int),
{
    reveal(registry_paths);
    reveal_strlit("body");
    reveal_strlit("edit");
    reveal_strlit("query");
    reveal_strlit("rename");
    reveal_strlit("todo");
    reveal_with_fuel(find_path_from, 12);
    assert(registry_paths().len() == 33);
        assert(registry_paths()[0].len() != registry_paths()[10].len());
        assert(registry_paths()[1].len() != registry_paths()[10].len());
        assert(registry_paths()[2].len() != registry_paths()[10].len());
        assert(registry_paths()[3].len() != registry_paths()[10].len());
        assert(registry_paths()[4][0].len() != registry_paths()[10][0].len());
        assert(registry_paths()[5][0].len() != registry_paths()[10][0].len());
        assert(registry_paths()[6][0].len() != registry_paths()[10][0].len());
        assert(registry_paths()[7][0][0] != registry_paths()[10][0][0]);
        assert(registry_paths()[8][0][0] != registry_paths()[10][0][0]);
        assert(registry_paths()[9][1].len() != registry_paths()[10][1].len());
}

proof fn lemma_path_found_11()
    ensures
        find_path(registry_paths()[11]) == Some(11int),
{
    reveal(registry_paths);
    reveal_strlit("body");
    reveal_strlit("edit");
    reveal_strlit("properties");
    reveal_strlit("query");
    reveal_strlit("rename");
    reveal_strlit("todo");
    reveal_with_fuel(find_path_from, 13);
    assert(registry_paths().len() == 33);
        assert(registry_paths()[0].len() != registry_paths()[11].len());
        assert(registry_paths()[1].len() != registry_paths()[11].len());
        assert(registry_paths()[2].len() != registry_paths()[11].len());
        assert(registry_paths()[3].len() != registry_paths()[11].len());
        assert(registry_paths()[4][0].len() != registry_paths()[11][0].len());
        assert(registry_paths()[5][0].len() != registry_paths()[11][0].len());
        assert(registry_paths()[6][0].len() != registry_paths()[11][0].len());
        assert(registry_paths()[7][0][0] != registry_paths()[11][0][0]);
        assert(registry_paths()[8][0][0] != registry_paths()[11][0][0]);
        assert(registry_paths()[9][1].len() != registry_paths()[11][1].len());
        assert(registry_paths()[10][1].len() != registry_paths()[11][1].len());
}

proof fn lemma_path_found_12()
    ensures
        find_path(registry_paths()[12]) == Some(12int),
{
    reveal(registry_paths);
    reveal_strlit("body");
    reveal_strlit("edit");
    reveal_strlit("properties");
    reveal_strlit("query");
    reveal_strlit("rename");
    reveal_strlit("tags");
    reveal_strlit("todo");
    reveal_with_fuel(find_path_from, 14);
    assert(registry_paths().len() == 33);
        assert(registry_paths()[0].len() != registry_paths()[12].len());
        assert(registry_paths()[1].len() != registry_paths()[12].len());
        assert(registry_paths()[2].len() != registry_paths()[12].len());
        assert(registry_paths()[3].len() != registry_paths()[12].len());
        assert(registry_paths()[4][0].len() != registry_paths()[12][0].len());
        assert(registry_paths()[5][0].len() != registry_paths()[12][0].len());
        assert(registry_paths()[6][0].len() != registry_paths()[12][0].len());
        assert(registry_paths()[7][0][0] != registry_paths()[12][0][0]);
        assert(registry_paths()[8][0][0] != registry_paths()[12][0][0]);
        assert(registry_paths()[9][1].len() != registry_paths()[12][1].len());
        assert(registry_paths()[10][1][0] != registry_paths()[12][1][0]);
        assert(registry_paths()[11][1].len() != registry_paths()[12][1].len());
}

proof fn lemma_path_found_13()
    ensures
        find_path(registry_paths()[13]) == Some(13int),
{
    reveal(registry_paths);
    reveal_strlit("body");
    reveal_strlit("edit");
    reveal_strlit("priority");
    reveal_strlit("properties");
    reveal_strlit("query");
    reveal_strlit("rename");
    reveal_strlit("tags");
    reveal_strlit("todo");
    reveal_with_fuel(find_path_from, 15);
    assert(registry_paths().len() == 33);
        assert(registry_paths()[0].len() != registry_paths()[13].len());
        assert(registry_paths()[1].len() != registry_paths()[13].len());
        assert(registry_paths()[2].len() != registry_paths()[13].len());
        assert(registry_paths()[3].len() != registry_paths()[13].len());
        assert(registry_paths()[4][0].len() != registry_paths()[13][0].len());
        assert(registry_paths()[5][0].len() != registry_paths()[13][0].len());
        assert(registry_paths()[6][0].len() != registry_paths()[13][0].len());
        assert(registry_paths()[7][0][0] != registry_paths()[13][0][0]);
        assert(registry_paths()[8][0][0] != registry_paths()[13][0][0]);
        assert(registry_paths()[9][1].len() != registry_paths()[13][1].len());
        assert(registry_paths()[10][1].len() != registry_paths()[13][1].len());
        assert(registry_paths()[11][1].len() != registry_paths()[13][1].len());
        assert(registry_paths()[12][1].len() != registry_paths()[13][1].len());
}

proof fn lemma_path_found_14()
    ensures
        find_path(registry_paths()[14]) == Some(14int),
{
    reveal(registry_paths);
    reveal_strlit("body");
    reveal_strlit("edit");
    reveal_strlit("priority");
    reveal_strlit("properties");
    reveal_strlit("query");
    reveal_strlit("rename");
    reveal_strlit("scheduled");
    reveal_strlit("tags");
    reveal_strlit("todo");
    reveal_with_fuel(find_path_from, 16);
    assert(registry_paths().len() == 33);
        assert(registry_paths()[0].len() != registry_paths()[14].len());
        assert(registry_paths()[1].len() != registry_paths()[14].len());
        assert(registry_paths()[2].len() != registry_paths()[14].len());
        assert(registry_paths()[3].len() != registry_paths()[14].len());
        assert(registry_paths()[4][0].len() != registry_paths()[14][0].len());
        assert(registry_paths()[5][0].len() != registry_paths()[14][0].len());
        assert(registry_paths()[6][0].len() != registry_paths()[14][0].len());
        assert(registry_paths()[7][0][0] != registry_paths()[14][0][0]);
        assert(registry_paths()[8][0][0] != registry_paths()[14][0][0]);
        assert(registry_paths()[9][1].len() != registry_paths()[14][1].len());
        assert(registry_paths()[10][1].len() != registry_paths()[14][1].len());
        assert(registry_paths()[11][1].len() != registry_paths()[14][1].len());
        assert(registry_paths()[12][1].len() != registry_paths()[14][1].len());
        assert(registry_paths()[13][1].len() != registry_paths()[14][1].len());
}

proof fn lemma_path_found_15()
    ensures
        find_path(registry_paths()[15]) == Some(15int),
{
    reveal(registry_paths);
    reveal_strlit("body");
    reveal_strlit("deadline");
    reveal_strlit("edit");
    reveal_strlit("priority");
    reveal_strlit("properties");
    reveal_strlit("query");
    reveal_strlit("rename");
    reveal_strlit("scheduled");
    reveal_strlit("tags");
    reveal_strlit("todo");
    reveal_with_fuel(find_path_from, 17);
    assert(registry_paths().len() == 33);
        assert(registry_paths()[0].len() != registry_paths()[15].len());
        assert(registry_paths()[1].len() != registry_paths()[15].len());
        assert(registry_paths()[2].len() != registry_paths()[15].len());
        assert(registry_paths()[3].len() != registry_paths()[15].len());
        assert(registry_paths()[4][0].len() != registry_paths()[15][0].len());
        assert(registry_paths()[5][0].len() != registry_paths()[15][0].len());
        assert(registry_paths()[6][0].len() != registry_paths()[15][0].len());
        assert(registry_paths()[7][0][0] != registry_paths()[15][0][0]);
        assert(registry_paths()[8][0][0] != registry_paths()[15][0][0]);
        assert(registry_paths()[9][1].len() != registry_paths()[15][1].len());
        assert(registry_paths()[10][1].len() != registry_paths()[15][1].len());
        assert(registry_paths()[11][1].len() != registry_paths()[15][1].len());
        assert(registry_paths()[12][1].len() != registry_paths()[15][1].len());
        assert(registry_paths()[13][1][0] != registry_paths()[15][1][0]);
        assert(registry_paths()[14][1].len() != registry_paths()[15][1].len());
}

proof fn lemma_path_found_16()
    ensures
        find_path(registry_paths()[16]) == Some(16int),
{
    reveal(registry_paths);
    reveal_strlit("body");
    reveal_strlit("deadline");
    reveal_strlit("edit");
    reveal_strlit("log-note");
    reveal_strlit("priority");
    reveal_strlit("properties");
    reveal_strlit("query");
    reveal_strlit("rename");
    reveal_strlit("scheduled");
    reveal_strlit("tags");
    reveal_strlit("todo");
    reveal_with_fuel(find_path_from, 18);
    assert(registry_paths().len() == 33);
        assert(registry_paths()[0].len() != registry_paths()[16].len());
        assert(registry_paths()[1].len() != registry_paths()[16].len());
        assert(registry_paths()[2].len() != registry_paths()[16].len());
        assert(registry_paths()[3].len() != registry_paths()[16].len());
        assert(registry_paths()[4][0].len() != registry_paths()[16][0].len());
        assert(registry_paths()[5][0].len() != registry_paths()[16][0].len());
        assert(registry_paths()[6][0].len() != registry_paths()[16][0].len());
        assert(registry_paths()[7][0][0] != registry_paths()[16][0][0]);
        assert(registry_paths()[8][0][0] != registry_paths()[16][0][0]);
        assert(registry_paths()[9][1].len() != registry_paths()[16][1].len());
        assert(registry_paths()[10][1].len() != registry_paths()[16][1].len());
        assert(registry_paths()[11][1].len() != registry_paths()[16][1].len());
        assert(registry_paths()[12][1].len() != registry_paths()[16][1].len());
        assert(registry_paths()[13][1][0] != registry_paths()[16][1][0]);
        assert(registry_paths()[14][1].len() != registry_paths()[16][1].len());
        assert(registry_paths()[15][1][0] != registry_paths()[16][1][0]);
}

proof fn lemma_path_found_17()
    ensures
        find_path(registry_paths()[17]) == Some(17int),
{
    reveal(registry_paths);
    reveal_strlit("clock");
    reveal_strlit("edit");
    reveal_strlit("query");
    reveal_strlit("todo");
    reveal_with_fuel(find_path_from, 19);
    assert(registry_paths().len() == 33);
        assert(registry_paths()[0].len() != registry_paths()[17].len());
        assert(registry_paths()[1].len() != registry_paths()[17].len());
        assert(registry_paths()[2].len() != registry_paths()[17].len());
        assert(registry_paths()[3].len() != registry_paths()[17].len());
        assert(registry_paths()[4][0][0] != registry_paths()[17][0][0]);
        assert(registry_paths()[5][0][0] != registry_paths()[17][0][0]);
        assert(registry_paths()[6][0][0] != registry_paths()[17][0][0]);
        assert(registry_paths()[7][0].len() != registry_paths()[17][0].len());
        assert(registry_paths()[8][0].len() != registry_paths()[17][0].len());
        assert(registry_paths()[9][0].len() != registry_paths()[17][0].len());
        assert(registry_paths()[10][0].len() != registry_paths()[17][0].len());
        assert(registry_paths()[11][0].len() != registry_paths()[17][0].len());
        assert(registry_paths()[12][0].len() != registry_paths()[17][0].len());
        assert(registry_paths()[13][0].len() != registry_paths()[17][0].len());
        assert(registry_paths()[14][0].len() != registry_paths()[17][0].len());
        assert(registry_paths()[15][0].len() != registry_paths()[17][0].len());
        assert(registry_paths()[16][0].len() != registry_paths()[17][0].len());
}

proof fn lemma_path_found_18()
    ensures
        find_path(registry_paths()[18]) == Some(18int),
{
    reveal(registry_paths);
    reveal_strlit("clock");
    reveal_strlit("edit");
    reveal_strlit("in");
    reveal_strlit("query");
    reveal_strlit("status");
    reveal_strlit("todo");
    reveal_with_fuel(find_path_from, 20);
    assert(registry_paths().len() == 33);
        assert(registry_paths()[0].len() != registry_paths()[18].len());
        assert(registry_paths()[1].len() != registry_paths()[18].len());
        assert(registry_paths()[2].len() != registry_paths()[18].len());
        assert(registry_paths()[3].len() != registry_paths()[18].len());
        assert(registry_paths()[4][0][0] != registry_paths()[18][0][0]);
        assert(registry_paths()[5][0][0] != registry_paths()[18][0][0]);
        assert(registry_paths()[6][0][0] != registry_paths()[18][0][0]);
        assert(registry_paths()[7][0].len() != registry_paths()[18][0].len());
        assert(registry_paths()[8][0].len() != registry_paths()[18][0].len());
        assert(registry_paths()[9][0].len() != registry_paths()[18][0].len());
        assert(registry_paths()[10][0].len() != registry_paths()[18][0].len());
        assert(registry_paths()[11][0].len() != registry_paths()[18][0].len());
        assert(registry_paths()[12][0].len() != registry_paths()[18][0].len());
        assert(registry_paths()[13][0].len() != registry_paths()[18][0].len());
        assert(registry_paths()[14][0].len() != registry_paths()[18][0].len());
        assert(registry_paths()[15][0].len() != registry_paths()[18][0].len());
        assert(registry_paths()[16][0].len() != registry_paths()[18][0].len());
        assert(registry_paths()[17][1].len() != registry_paths()[18][1].len());
}

proof fn lemma_path_found_19()
    ensures
        find_path(registry_paths()[19]) == Some(19int),
{
    reveal(registry_paths);
    reveal_strlit("clock");
    reveal_strlit("edit");
    reveal_strlit("in");
    reveal_strlit("out");
    reveal_strlit("query");
    reveal_strlit("status");
    reveal_strlit("todo");
    reveal_with_fuel(find_path_from, 21);
    assert(registry_paths().len() == 33);
        assert(registry_paths()[0].len() != registry_paths()[19].len());
        assert(registry_paths()[1].len() != registry_paths()[19].len());
        assert(registry_paths()[2].len() != registry_paths()[19].len());
        assert(registry_paths()[3].len() != registry_paths()[19].len());
        assert(registry_paths()[4][0][0] != registry_paths()[19][0][0]);
        assert(registry_paths()[5][0][0] != registry_paths()[19][0][0]);
        assert(registry_paths()[6][0][0] != registry_paths()[19][0][0]);
        assert(registry_paths()[7][0].len() != registry_paths()[19][0].len());
        assert(registry_paths()[8][0].len() != registry_paths()[19][0].len());
        assert(registry_paths()[9][0].len() != registry_paths()[19][0].len());
        assert(registry_paths()[10][0].len() != registry_paths()[19][0].len());
        assert(registry_paths()[11][0].len() != registry_paths()[19][0].len());
        assert(registry_paths()[12][0].len() != registry_paths()[19][0].len());
        assert(registry_paths()[13][0].len() != registry_paths()[19][0].len());
        assert(registry_paths()[14][0].len() != registry_paths()[19][0].len());
        assert(registry_paths()[15][0].len() != registry_paths()[19][0].len());
        assert(registry_paths()[16][0].len() != registry_paths()[19][0].len());
        assert(registry_paths()[17][1].len() != registry_paths()[19][1].len());
        assert(registry_paths()[18][1].len() != registry_paths()[19][1].len());
}

proof fn lemma_path_found_20()
    ensures
        find_path(registry_paths()[20]) == Some(20int),
{
    reveal(registry_paths);
    reveal_strlit("add");
    reveal_strlit("clock");
    reveal_strlit("edit");
    reveal_strlit("in");
    reveal_strlit("out");
    reveal_strlit("query");
    reveal_strlit("status");
    reveal_strlit("todo");
    reveal_with_fuel(find_path_from, 22);
    assert(registry_paths().len() == 33);
        assert(registry_paths()[0].len() != registry_paths()[20].len());
        assert(registry_paths()[1].len() != registry_paths()[20].len());
        assert(registry_paths()[2].len() != registry_paths()[20].len());
        assert(registry_paths()[3].len() != registry_paths()[20].len());
        assert(registry_paths()[4][0][0] != registry_paths()[20][0][0]);
        assert(registry_paths()[5][0][0] != registry_paths()[20][0][0]);
        assert(registry_paths()[6][0][0] != registry_paths()[20][0][0]);
        assert(registry_paths()[7][0].len() != registry_paths()[20][0].len());
        assert(registry_paths()[8][0].len() != registry_paths()[20][0].len());
        assert(registry_paths()[9][0].len() != registry_paths()[20][0].len());
        assert(registry_paths()[10][0].len() != registry_paths()[20][0].len());
        assert(registry_paths()[11][0].len() != registry_paths()[20][0].len());
        assert(registry_paths()[12][0].len() != registry_paths()[20][0].len());
        assert(registry_paths()[13][0].len() != registry_paths()[20][0].len());
        assert(registry_paths()[14][0].len() != registry_paths()[20][0].len());
        assert(registry_paths()[15][0].len() != registry_paths()[20][0].len());
        assert(registry_paths()[16][0].len() != registry_paths()[20][0].len());
        assert(registry_paths()[17][1].len() != registry_paths()[20][1].len());
        assert(registry_paths()[18][1].len() != registry_paths()[20][1].len());
        assert(registry_paths()[19][1][0] != registry_paths()[20][1][0]);
}

proof fn lemma_path_found_21()
    ensures
        find_path(registry_paths()[21]) == Some(21int),
{
    reveal(registry_paths);
    reveal_strlit("add");
    reveal_strlit("clock");
    reveal_strlit("delete");
    reveal_strlit("edit");
    reveal_strlit("in");
    reveal_strlit("out");
    reveal_strlit("query");
    reveal_strlit("status");
    reveal_strlit("todo");
    reveal_with_fuel(find_path_from, 23);
    assert(registry_paths().len() == 33);
        assert(registry_paths()[0].len() != registry_paths()[21].len());
        assert(registry_paths()[1].len() != registry_paths()[21].len());
        assert(registry_paths()[2].len() != registry_paths()[21].len());
        assert(registry_paths()[3].len() != registry_paths()[21].len());
        assert(registry_paths()[4][0][0] != registry_paths()[21][0][0]);
        assert(registry_paths()[5][0][0] != registry_paths()[21][0][0]);
        assert(registry_paths()[6][0][0] != registry_paths()[21][0][0]);
        assert(registry_paths()[7][0].len() != registry_paths()[21][0].len());
        assert(registry_paths()[8][0].len() != registry_paths()[21][0].len());
        assert(registry_paths()[9][0].len() != registry_paths()[21][0].len());
        assert(registry_paths()[10][0].len() != registry_paths()[21][0].len());
        assert(registry_paths()[11][0].len() != registry_paths()[21][0].len());
        assert(registry_paths()[12][0].len() != registry_paths()[21][0].len());
        assert(registry_paths()[13][0].len() != registry_paths()[21][0].len());
        assert(registry_paths()[14][0].len() != registry_paths()[21][0].len());
        assert(registry_paths()[15][0].len() != registry_paths()[21][0].len());
        assert(registry_paths()[16][0].len() != registry_paths()[21][0].len());
        assert(registry_paths()[17][1][0] != registry_paths()[21][1][0]);
        assert(registry_paths()[18][1].len() != registry_paths()[21][1].len());
        assert(registry_paths()[19][1].len() != registry_paths()[21][1].len());
        assert(registry_paths()[20][1].len() != registry_paths()[21][1].len());
}

proof fn lemma_path_found_22()
    ensures
        find_path(registry_paths()[22]) == Some(22int),
{
    reveal(registry_paths);
    reveal_strlit("add");
    reveal_strlit("clock");
    reveal_strlit("dangling");
    reveal_strlit("delete");
    reveal_strlit("edit");
    reveal_strlit("in");
    reveal_strlit("out");
    reveal_strlit("query");
    reveal_strlit("status");
    reveal_strlit("todo");
    reveal_with_fuel(find_path_from, 24);
    assert(registry_paths().len() == 33);
        assert(registry_paths()[0].len() != registry_paths()[22].len());
        assert(registry_paths()[1].len() != registry_paths()[22].len());
        assert(registry_paths()[2].len() != registry_paths()[22].len());
        assert(registry_paths()[3].len() != registry_paths()[22].len());
        assert(registry_paths()[4][0][0] != registry_paths()[22][0][0]);
        assert(registry_paths()[5][0][0] != registry_paths()[22][0][0]);
        assert(registry_paths()[6][0][0] != registry_paths()[22][0][0]);
        assert(registry_paths()[7][0].len() != registry_paths()[22][0].len());
        assert(registry_paths()[8][0].len() != registry_paths()[22][0].len());
        assert(registry_paths()[9][0].len() != registry_paths()[22][0].len());
        assert(registry_paths()[10][0].len() != registry_paths()[22][0].len());
        assert(registry_paths()[11][0].len() != registry_paths()[22][0].len());
        assert(registry_paths()[12][0].len() != registry_paths()[22][0].len());
        assert(registry_paths()[13][0].len() != registry_paths()[22][0].len());
        assert(registry_paths()[14][0].len() != registry_paths()[22][0].len());
        assert(registry_paths()[15][0].len() != registry_paths()[22][0].len());
        assert(registry_paths()[16][0].len() != registry_paths()[22][0].len());
        assert(registry_paths()[17][1].len() != registry_paths()[22][1].len());
        assert(registry_paths()[18][1].len() != registry_paths()[22][1].len());
        assert(registry_paths()[19][1].len() != registry_paths()[22][1].len());
        assert(registry_paths()[20][1].len() != registry_paths()[22][1].len());
        assert(registry_paths()[21][1].len() != registry_paths()[22][1].len());
}

proof fn lemma_path_found_23()
    ensures
        find_path(registry_paths()[23]) == Some(23int),
{
    reveal(registry_paths);
    reveal_strlit("clock");
    reveal_strlit("config");
    reveal_strlit("edit");
    reveal_strlit("query");
    reveal_strlit("todo");
    reveal_with_fuel(find_path_from, 25);
    assert(registry_paths().len() == 33);
        assert(registry_paths()[0].len() != registry_paths()[23].len());
        assert(registry_paths()[1].len() != registry_paths()[23].len());
        assert(registry_paths()[2].len() != registry_paths()[23].len());
        assert(registry_paths()[3].len() != registry_paths()[23].len());
        assert(registry_paths()[4][0].len() != registry_paths()[23][0].len());
        assert(registry_paths()[5][0].len() != registry_paths()[23][0].len());
        assert(registry_paths()[6][0].len() != registry_paths()[23][0].len());
        assert(registry_paths()[7][0].len() != registry_paths()[23][0].len());
        assert(registry_paths()[8][0].len() != registry_paths()[23][0].len());
        assert(registry_paths()[9][0].len() != registry_paths()[23][0].len());
        assert(registry_paths()[10][0].len() != registry_paths()[23][0].len());
        assert(registry_paths()[11][0].len() != registry_paths()[23][0].len());
        assert(registry_paths()[12][0].len() != registry_paths()[23][0].len());
        assert(registry_paths()[13][0].len() != registry_paths()[23][0].len());
        assert(registry_paths()[14][0].len() != registry_paths()[23][0].len());
        assert(registry_paths()[15][0].len() != registry_paths()[23][0].len());
        assert(registry_paths()[16][0].len() != registry_paths()[23][0].len());
        assert(registry_paths()[17][0].len() != registry_paths()[23][0].len());
        assert(registry_paths()[18][0].len() != registry_paths()[23][0].len());
        assert(registry_paths()[19][0].len() != registry_paths()[23][0].len());
        assert(registry_paths()[20][0].len() != registry_paths()[23][0].len());
        assert(registry_paths()[21][0].len() != registry_paths()[23][0].len());
        assert(registry_paths()[22][0].len() != registry_paths()[23][0].len());
}

proof fn lemma_path_found_24()
    ensures
        find_path(registry_paths()[24]) == Some(24int),
{
    reveal(registry_paths);
    reveal_strlit("clock");
    reveal_strlit("config");
    reveal_strlit("edit");
    reveal_strlit("query");
    reveal_strlit("tags");
    reveal_strlit("todo");
    reveal_with_fuel(find_path_from, 26);
    assert(registry_paths().len() == 33);
        assert(registry_paths()[0].len() != registry_paths()[24].len());
        assert(registry_paths()[1].len() != registry_paths()[24].len());
        assert(registry_paths()[2].len() != registry_paths()[24].len());
        assert(registry_paths()[3].len() != registry_paths()[24].len());
        assert(registry_paths()[4][0].len() != registry_paths()[24][0].len());
        assert(registry_paths()[5][0].len() != registry_paths()[24][0].len());
        assert(registry_paths()[6][0].len() != registry_paths()[24][0].len());
        assert(registry_paths()[7][0].len() != registry_paths()[24][0].len());
        assert(registry_paths()[8][0].len() != registry_paths()[24][0].len());
        assert(registry_paths()[9][0].len() != registry_paths()[24][0].len());
        assert(registry_paths()[10][0].len() != registry_paths()[24][0].len());
        assert(registry_paths()[11][0].len() != registry_paths()[24][0].len());
        assert(registry_paths()[12][0].len() != registry_paths()[24][0].len());
        assert(registry_paths()[13][0].len() != registry_paths()[24][0].len());
        assert(registry_paths()[14][0].len() != registry_paths()[24][0].len());
        assert(registry_paths()[15][0].len() != registry_paths()[24][0].len());
        assert(registry_paths()[16][0].len() != registry_paths()[24][0].len());
        assert(registry_paths()[17][0].len() != registry_paths()[24][0].len());
        assert(registry_paths()[18][0].len() != registry_paths()[24][0].len());
        assert(registry_paths()[19][0].len() != registry_paths()[24][0].len());
        assert(registry_paths()[20][0].len() != registry_paths()[24][0].len());
        assert(registry_paths()[21][0].len() != registry_paths()[24][0].len());
        assert(registry_paths()[22][0].len() != registry_paths()[24][0].len());
        assert(registry_paths()[23][1][1] != registry_paths()[24][1][1]);
}

proof fn lemma_path_found_25()
    ensures
        find_path(registry_paths()[25]) == Some(25int),
{
    reveal(registry_paths);
    reveal_strlit("clock");
    reveal_strlit("config");
    reveal_strlit("edit");
    reveal_strlit("query");
    reveal_strlit("tag-candidates");
    reveal_strlit("tags");
    reveal_strlit("todo");
    reveal_with_fuel(find_path_from, 27);
    assert(registry_paths().len() == 33);
        assert(registry_paths()[0].len() != registry_paths()[25].len());
        assert(registry_paths()[1].len() != registry_paths()[25].len());
        assert(registry_paths()[2].len() != registry_paths()[25].len());
        assert(registry_paths()[3].len() != registry_paths()[25].len());
        assert(registry_paths()[4][0].len() != registry_paths()[25][0].len());
        assert(registry_paths()[5][0].len() != registry_paths()[25][0].len());
        assert(registry_paths()[6][0].len() != registry_paths()[25][0].len());
        assert(registry_paths()[7][0].len() != registry_paths()[25][0].len());
        assert(registry_paths()[8][0].len() != registry_paths()[25][0].len());
        assert(registry_paths()[9][0].len() != registry_paths()[25][0].len());
        assert(registry_paths()[10][0].len() != registry_paths()[25][0].len());
        assert(registry_paths()[11][0].len() != registry_paths()[25][0].len());
        assert(registry_paths()[12][0].len() != registry_paths()[25][0].len());
        assert(registry_paths()[13][0].len() != registry_paths()[25][0].len());
        assert(registry_paths()[14][0].len() != registry_paths()[25][0].len());
        assert(registry_paths()[15][0].len() != registry_paths()[25][0].len());
        assert(registry_paths()[16][0].len() != registry_paths()[25][0].len());
        assert(registry_paths()[17][0].len() != registry_paths()[25][0].len());
        assert(registry_paths()[18][0].len() != registry_paths()[25][0].len());
        assert(registry_paths()[19][0].len() != registry_paths()[25][0].len());
        assert(registry_paths()[20][0].len() != registry_paths()[25][0].len());
        assert(registry_paths()[21][0].len() != registry_paths()[25][0].len());
        assert(registry_paths()[22][0].len() != registry_paths()[25][0].len());
        assert(registry_paths()[23][1].len() != registry_paths()[25][1].len());
        assert(registry_paths()[24][1].len() != registry_paths()[25][1].len());
}

proof fn lemma_path_found_26()
    ensures
        find_path(registry_paths()[26]) == Some(26int),
{
    reveal(registry_paths);
    reveal_strlit("clock");
    reveal_strlit("config");
    reveal_strlit("edit");
    reveal_strlit("priority");
    reveal_strlit("query");
    reveal_strlit("tag-candidates");
    reveal_strlit("tags");
    reveal_strlit("todo");
    reveal_with_fuel(find_path_from, 28);
    assert(registry_paths().len() == 33);
        assert(registry_paths()[0].len() != registry_paths()[26].len());
        assert(registry_paths()[1].len() != registry_paths()[26].len());
        assert(registry_paths()[2].len() != registry_paths()[26].len());
        assert(registry_paths()[3].len() != registry_paths()[26].len());
        assert(registry_paths()[4][0].len() != registry_paths()[26][0].len());
        assert(registry_paths()[5][0].len() != registry_paths()[26][0].len());
        assert(registry_paths()[6][0].len() != registry_paths()[26][0].len());
        assert(registry_paths()[7][0].len() != registry_paths()[26][0].len());
        assert(registry_paths()[8][0].len() != registry_paths()[26][0].len());
        assert(registry_paths()[9][0].len() != registry_paths()[26][0].len());
        assert(registry_paths()[10][0].len() != registry_paths()[26][0].len());
        assert(registry_paths()[11][0].len() != registry_paths()[26][0].len());
        assert(registry_paths()[12][0].len() != registry_paths()[26][0].len());
        assert(registry_paths()[13][0].len() != registry_paths()[26][0].len());
        assert(registry_paths()[14][0].len() != registry_paths()[26][0].len());
        assert(registry_paths()[15][0].len() != registry_paths()[26][0].len());
        assert(registry_paths()[16][0].len() != registry_paths()[26][0].len());
        assert(registry_paths()[17][0].len() != registry_paths()[26][0].len());
        assert(registry_paths()[18][0].len() != registry_paths()[26][0].len());
        assert(registry_paths()[19][0].len() != registry_paths()[26][0].len());
        assert(registry_paths()[20][0].len() != registry_paths()[26][0].len());
        assert(registry_paths()[21][0].len() != registry_paths()[26][0].len());
        assert(registry_paths()[22][0].len() != registry_paths()[26][0].len());
        assert(registry_paths()[23][1].len() != registry_paths()[26][1].len());
        assert(registry_paths()[24][1].len() != registry_paths()[26][1].len());
        assert(registry_paths()[25][1].len() != registry_paths()[26][1].len());
}

proof fn lemma_path_found_27()
    ensures
        find_path(registry_paths()[27]) == Some(27int),
{
    reveal(registry_paths);
    reveal_strlit("clock");
    reveal_strlit("config");
    reveal_strlit("edit");
    reveal_strlit("files");
    reveal_strlit("priority");
    reveal_strlit("query");
    reveal_strlit("tag-candidates");
    reveal_strlit("tags");
    reveal_strlit("todo");
    reveal_with_fuel(find_path_from, 29);
    assert(registry_paths().len() == 33);
        assert(registry_paths()[0].len() != registry_paths()[27].len());
        assert(registry_paths()[1].len() != registry_paths()[27].len());
        assert(registry_paths()[2].len() != registry_paths()[27].len());
        assert(registry_paths()[3].len() != registry_paths()[27].len());
        assert(registry_paths()[4][0].len() != registry_paths()[27][0].len());
        assert(registry_paths()[5][0].len() != registry_paths()[27][0].len());
        assert(registry_paths()[6][0].len() != registry_paths()[27][0].len());
        assert(registry_paths()[7][0].len() != registry_paths()[27][0].len());
        assert(registry_paths()[8][0].len() != registry_paths()[27][0].len());
        assert(registry_paths()[9][0].len() != registry_paths()[27][0].len());
        assert(registry_paths()[10][0].len() != registry_paths()[27][0].len());
        assert(registry_paths()[11][0].len() != registry_paths()[27][0].len());
        assert(registry_paths()[12][0].len() != registry_paths()[27][0].len());
        assert(registry_paths()[13][0].len() != registry_paths()[27][0].len());
        assert(registry_paths()[14][0].len() != registry_paths()[27][0].len());
        assert(registry_paths()[15][0].len() != registry_paths()[27][0].len());
        assert(registry_paths()[16][0].len() != registry_paths()[27][0].len());
        assert(registry_paths()[17][0].len() != registry_paths()[27][0].len());
        assert(registry_paths()[18][0].len() != registry_paths()[27][0].len());
        assert(registry_paths()[19][0].len() != registry_paths()[27][0].len());
        assert(registry_paths()[20][0].len() != registry_paths()[27][0].len());
        assert(registry_paths()[21][0].len() != registry_paths()[27][0].len());
        assert(registry_paths()[22][0].len() != registry_paths()[27][0].len());
        assert(registry_paths()[23][1].len() != registry_paths()[27][1].len());
        assert(registry_paths()[24][1].len() != registry_paths()[27][1].len());
        assert(registry_paths()[25][1].len() != registry_paths()[27][1].len());
        assert(registry_paths()[26][1].len() != registry_paths()[27][1].len());
}

proof fn lemma_path_found_28()
    ensures
        find_path(registry_paths()[28]) == Some(28int),
{
    reveal(registry_paths);
    reveal_strlit("clock");
    reveal_strlit("config");
    reveal_strlit("edit");
    reveal_strlit("files");
    reveal_strlit("priority");
    reveal_strlit("query");
    reveal_strlit("tag-candidates");
    reveal_strlit("tags");
    reveal_strlit("todo");
    reveal_with_fuel(find_path_from, 30);
    assert(registry_paths().len() == 33);
        assert(registry_paths()[0].len() != registry_paths()[28].len());
        assert(registry_paths()[1].len() != registry_paths()[28].len());
        assert(registry_paths()[2].len() != registry_paths()[28].len());
        assert(registry_paths()[3].len() != registry_paths()[28].len());
        assert(registry_paths()[4][0].len() != registry_paths()[28][0].len());
        assert(registry_paths()[5][0].len() != registry_paths()[28][0].len());
        assert(registry_paths()[6][0].len() != registry_paths()[28][0].len());
        assert(registry_paths()[7][0].len() != registry_paths()[28][0].len());
        assert(registry_paths()[8][0].len() != registry_paths()[28][0].len());
        assert(registry_paths()[9][0].len() != registry_paths()[28][0].len());
        assert(registry_paths()[10][0].len() != registry_paths()[28][0].len());
        assert(registry_paths()[11][0].len() != registry_paths()[28][0].len());
        assert(registry_paths()[12][0].len() != registry_paths()[28][0].len());
        assert(registry_paths()[13][0].len() != registry_paths()[28][0].len());
        assert(registry_paths()[14][0].len() != registry_paths()[28][0].len());
        assert(registry_paths()[15][0].len() != registry_paths()[28][0].len());
        assert(registry_paths()[16][0].len() != registry_paths()[28][0].len());
        assert(registry_paths()[17][0].len() != registry_paths()[28][0].len());
        assert(registry_paths()[18][0].len() != registry_paths()[28][0].len());
        assert(registry_paths()[19][0].len() != registry_paths()[28][0].len());
        assert(registry_paths()[20][0].len() != registry_paths()[28][0].len());
        assert(registry_paths()[21][0].len() != registry_paths()[28][0].len());
        assert(registry_paths()[22][0].len() != registry_paths()[28][0].len());
        assert(registry_paths()[23][1].len() != registry_paths()[28][1].len());
        assert(registry_paths()[24][1].len() != registry_paths()[28][1].len());
        assert(registry_paths()[25][1].len() != registry_paths()[28][1].len());
        assert(registry_paths()[26][1].len() != registry_paths()[28][1].len());
        assert(registry_paths()[27][1][0] != registry_paths()[28][1][0]);
}

proof fn lemma_path_found_29()
    ensures
        find_path(registry_paths()[29]) == Some(29int),
{
    reveal(registry_paths);
    reveal_strlit("clock");
    reveal_strlit("config");
    reveal_strlit("edit");
    reveal_strlit("query");
    reveal_strlit("todo");
    reveal_strlit("tools");
    reveal_with_fuel(find_path_from, 31);
    assert(registry_paths().len() == 33);
        assert(registry_paths()[0].len() != registry_paths()[29].len());
        assert(registry_paths()[1].len() != registry_paths()[29].len());
        assert(registry_paths()[2].len() != registry_paths()[29].len());
        assert(registry_paths()[3].len() != registry_paths()[29].len());
        assert(registry_paths()[4][0][0] != registry_paths()[29][0][0]);
        assert(registry_paths()[5][0][0] != registry_paths()[29][0][0]);
        assert(registry_paths()[6][0][0] != registry_paths()[29][0][0]);
        assert(registry_paths()[7][0].len() != registry_paths()[29][0].len());
        assert(registry_paths()[8][0].len() != registry_paths()[29][0].len());
        assert(registry_paths()[9][0].len() != registry_paths()[29][0].len());
        assert(registry_paths()[10][0].len() != registry_paths()[29][0].len());
        assert(registry_paths()[11][0].len() != registry_paths()[29][0].len());
        assert(registry_paths()[12][0].len() != registry_paths()[29][0].len());
        assert(registry_paths()[13][0].len() != registry_paths()[29][0].len());
        assert(registry_paths()[14][0].len() != registry_paths()[29][0].len());
        assert(registry_paths()[15][0].len() != registry_paths()[29][0].len());
        assert(registry_paths()[16][0].len() != registry_paths()[29][0].len());
        assert(registry_paths()[17][0][0] != registry_paths()[29][0][0]);
        assert(registry_paths()[18][0][0] != registry_paths()[29][0][0]);
        assert(registry_paths()[19][0][0] != registry_paths()[29][0][0]);
        assert(registry_paths()[20][0][0] != registry_paths()[29][0][0]);
        assert(registry_paths()[21][0][0] != registry_paths()[29][0][0]);
        assert(registry_paths()[22][0][0] != registry_paths()[29][0][0]);
        assert(registry_paths()[23][0].len() != registry_paths()[29][0].len());
        assert(registry_paths()[24][0].len() != registry_paths()[29][0].len());
        assert(registry_paths()[25][0].len() != registry_paths()[29][0].len());
        assert(registry_paths()[26][0].len() != registry_paths()[29][0].len());
        assert(registry_paths()[27][0].len() != registry_paths()[29][0].len());
        assert(registry_paths()[28][0].len() != registry_paths()[29][0].len());
}

proof fn lemma_path_found_30()
    ensures
        find_path(registry_paths()[30]) == Some(30int),
{
    reveal(registry_paths);
    reveal_strlit("call");
    reveal_strlit("clock");
    reveal_strlit("config");
    reveal_strlit("edit");
    reveal_strlit("list");
    reveal_strlit("query");
    reveal_strlit("todo");
    reveal_strlit("tools");
    reveal_with_fuel(find_path_from, 32);
    assert(registry_paths().len() == 33);
        assert(registry_paths()[0].len() != registry_paths()[30].len());
        assert(registry_paths()[1].len() != registry_paths()[30].len());
        assert(registry_paths()[2].len() != registry_paths()[30].len());
        assert(registry_paths()[3].len() != registry_paths()[30].len());
        assert(registry_paths()[4][0][0] != registry_paths()[30][0][0]);
        assert(registry_paths()[5][0][0] != registry_paths()[30][0][0]);
        assert(registry_paths()[6][0][0] != registry_paths()[30][0][0]);
        assert(registry_paths()[7][0].len() != registry_paths()[30][0].len());
        assert(registry_paths()[8][0].len() != registry_paths()[30][0].len());
        assert(registry_paths()[9][0].len() != registry_paths()[30][0].len());
        assert(registry_paths()[10][0].len() != registry_paths()[30][0].len());
        assert(registry_paths()[11][0].len() != registry_paths()[30][0].len());
        assert(registry_paths()[12][0].len() != registry_paths()[30][0].len());
        assert(registry_paths()[13][0].len() != registry_paths()[30][0].len());
        assert(registry_paths()[14][0].len() != registry_paths()[30][0].len());
        assert(registry_paths()[15][0].len() != registry_paths()[30][0].len());
        assert(registry_paths()[16][0].len() != registry_paths()[30][0].len());
        assert(registry_paths()[17][0][0] != registry_paths()[30][0][0]);
        assert(registry_paths()[18][0][0] != registry_paths()[30][0][0]);
        assert(registry_paths()[19][0][0] != registry_paths()[30][0][0]);
        assert(registry_paths()[20][0][0] != registry_paths()[30][0][0]);
        assert(registry_paths()[21][0][0] != registry_paths()[30][0][0]);
        assert(registry_paths()[22][0][0] != registry_paths()[30][0][0]);
        assert(registry_paths()[23][0].len() != registry_paths()[30][0].len());
        assert(registry_paths()[24][0].len() != registry_paths()[30][0].len());
        assert(registry_paths()[25][0].len() != registry_paths()[30][0].len());
        assert(registry_paths()[26][0].len() != registry_paths()[30][0].len());
        assert(registry_paths()[27][0].len() != registry_paths()[30][0].len());
        assert(registry_paths()[28][0].len() != registry_paths()[30][0].len());
        assert(registry_paths()[29][1][0] != registry_paths()[30][1][0]);
}

proof fn lemma_path_found_31()
    ensures
        find_path(registry_paths()[31]) == Some(31int),
{
    reveal(registry_paths);
    reveal_strlit("outline");
    reveal_strlit("query");
    reveal_strlit("read");
    reveal_strlit("read-headline");
    reveal_strlit("schema");
    reveal_with_fuel(find_path_from, 33);
    assert(registry_paths().len() == 33);
        assert(registry_paths()[0][0].len() != registry_paths()[31][0].len());
        assert(registry_paths()[1][0].len() != registry_paths()[31][0].len());
        assert(registry_paths()[2][0].len() != registry_paths()[31][0].len());
        assert(registry_paths()[3][0].len() != registry_paths()[31][0].len());
        assert(registry_paths()[4].len() != registry_paths()[31].len());
        assert(registry_paths()[5].len() != registry_paths()[31].len());
        assert(registry_paths()[6].len() != registry_paths()[31].len());
        assert(registry_paths()[7].len() != registry_paths()[31].len());
        assert(registry_paths()[8].len() != registry_paths()[31].len());
        assert(registry_paths()[9].len() != registry_paths()[31].len());
        assert(registry_paths()[10].len() != registry_paths()[31].len());
        assert(registry_paths()[11].len() != registry_paths()[31].len());
        assert(registry_paths()[12].len() != registry_paths()[31].len());
        assert(registry_paths()[13].len() != registry_paths()[31].len());
        assert(registry_paths()[14].len() != registry_paths()[31].len());
        assert(registry_paths()[15].len() != registry_paths()[31].len());
        assert(registry_paths()[16].len() != registry_paths()[31].len());
        assert(registry_paths()[17].len() != registry_paths()[31].len());
        assert(registry_paths()[18].len() != registry_paths()[31].len());
        assert(registry_paths()[19].len() != registry_paths()[31].len());
        assert(registry_paths()[20].len() != registry_paths()[31].len());
        assert(registry_paths()[21].len() != registry_paths()[31].len());
        assert(registry_paths()[22].len() != registry_paths()[31].len());
        assert(registry_paths()[23].len() != registry_paths()[31].len());
        assert(registry_paths()[24].len() != registry_paths()[31].len());
        assert(registry_paths()[25].len() != registry_paths()[31].len());
        assert(registry_paths()[26].len() != registry_paths()[31].len());
        assert(registry_paths()[27].len() != registry_paths()[31].len());
        assert(registry_paths()[28].len() != registry_paths()[31].len());
        assert(registry_paths()[29].len() != registry_paths()[31].len());
        assert(registry_paths()[30].len() != registry_paths()[31].len());
}

proof fn lemma_path_found_32()
    ensures
        find_path(registry_paths()[32]) == Some(32int),
{
    reveal(registry_paths);
    reveal_strlit("clock");
    reveal_strlit("config");
    reveal_strlit("edit");
    reveal_strlit("query");
    reveal_strlit("schema");
    reveal_strlit("todo");
    reveal_strlit("tools");
    reveal_with_fuel(find_path_from, 34);
    assert(registry_paths().len() == 33);
        assert(registry_paths()[0].len() != registry_paths()[32].len());
        assert(registry_paths()[1].len() != registry_paths()[32].len());
        assert(registry_paths()[2].len() != registry_paths()[32].len());
        assert(registry_paths()[3].len() != registry_paths()[32].len());
        assert(registry_paths()[4][0].len() != registry_paths()[32][0].len());
        assert(registry_paths()[5][0].len() != registry_paths()[32][0].len());
        assert(registry_paths()[6][0].len() != registry_paths()[32][0].len());
        assert(registry_paths()[7][0].len() != registry_paths()[32][0].len());
        assert(registry_paths()[8][0].len() != registry_paths()[32][0].len());
        assert(registry_paths()[9][0].len() != registry_paths()[32][0].len());
        assert(registry_paths()[10][0].len() != registry_paths()[32][0].len());
        assert(registry_paths()[11][0].len() != registry_paths()[32][0].len());
        assert(registry_paths()[12][0].len() != registry_paths()[32][0].len());
        assert(registry_paths()[13][0].len() != registry_paths()[32][0].len());
        assert(registry_paths()[14][0].len() != registry_paths()[32][0].len());
        assert(registry_paths()[15][0].len() != registry_paths()[32][0].len());
        assert(registry_paths()[16][0].len() != registry_paths()[32][0].len());
        assert(registry_paths()[17][0].len() != registry_paths()[32][0].len());
        assert(registry_paths()[18][0].len() != registry_paths()[32][0].len());
        assert(registry_paths()[19][0].len() != registry_paths()[32][0].len());
        assert(registry_paths()[20][0].len() != registry_paths()[32][0].len());
        assert(registry_paths()[21][0].len() != registry_paths()[32][0].len());
        assert(registry_paths()[22][0].len() != registry_paths()[32][0].len());
        assert(registry_paths()[23][0][0] != registry_paths()[32][0][0]);
        assert(registry_paths()[24][0][0] != registry_paths()[32][0][0]);
        assert(registry_paths()[25][0][0] != registry_paths()[32][0][0]);
        assert(registry_paths()[26][0][0] != registry_paths()[32][0][0]);
        assert(registry_paths()[27][0][0] != registry_paths()[32][0][0]);
        assert(registry_paths()[28][0][0] != registry_paths()[32][0][0]);
        assert(registry_paths()[29][0].len() != registry_paths()[32][0].len());
        assert(registry_paths()[30][0].len() != registry_paths()[32][0].len());
        assert(registry_paths()[31].len() != registry_paths()[32].len());
}

/// Looking up the path of the command at position `k` finds that command.
pub proof fn lemma_path_found(k: int)
    requires
        0 <= k < registry_paths().len(),
    ensures
        find_path(registry_paths()[k]) == Some(k),
{
    assert(registry_paths().len() == 33) by {
        reveal(registry_paths);
    }
    if k == 0 {
        lemma_path_found_0();
    } else if k == 1 {
        lemma_path_found_1();
    } else if k == 2 {
        lemma_path_found_2();
    } else if k == 3 {
        lemma_path_found_3();
    } else if k == 4 {
        lemma_path_found_4();
    } else if k == 5 {
        lemma_path_found_5();
    } else if k == 6 {
        lemma_path_found_6();
    } else if k == 7 {
        lemma_path_found_7();
    } else if k == 8 {
        lemma_path_found_8();
    } else if k == 9 {
        lemma_path_found_9();
    } else if k == 10 {
        lemma_path_found_10();
    } else if k == 11 {
        lemma_path_found_11();
    } else if k == 12 {
        lemma_path_found_12();
    } else if k == 13 {
        lemma_path_found_13();
    } else if k == 14 {
        lemma_path_found_14();
    } else if k == 15 {
        lemma_path_found_15();
    } else if k == 16 {
        lemma_path_found_16();
    } else if k == 17 {
        lemma_path_found_17();
    } else if k == 18 {
        lemma_path_found_18();
    } else if k == 19 {
        lemma_path_found_19();
    } else if k == 20 {
        lemma_path_found_20();
    } else if k == 21 {
        lemma_path_found_21();
    } else if k == 22 {
        lemma_path_found_22();
    } else if k == 23 {
        lemma_path_found_23();
    } else if k == 24 {
        lemma_path_found_24();
    } else if k == 25 {
        lemma_path_found_25();
    } else if k == 26 {
        lemma_path_found_26();
    } else if k == 27 {
        lemma_path_found_27();
    } else if k == 28 {
        lemma_path_found_28();
    } else if k == 29 {
        lemma_path_found_29();
    } else if k == 30 {
        lemma_path_found_30();
    } else if k == 31 {
        lemma_path_found_31();
    } else if k == 32 {
        lemma_path_found_32();
    } else {
    }
}

/// No two commands of the registry share a path.
pub proof fn lemma_registry_paths_unique(i: int, j: int)
    requires
        0 <= i < registry_paths().len(),
        0 <= j < registry_paths().len(),
        i != j,
    ensures
        registry_paths()[i] != registry_paths()[j],
{
    lemma_path_found(i);
    lemma_path_found(j);
}

/// A tool command names its tool; an internal command names none.
pub proof fn lemma_registry_targets(i: int)
    requires
        0 <= i < registry_targets().len(),
    ensures
        registry_targets()[i].0 == TargetKind::Tool ==> registry_targets()[i].1.len() > 0,
        registry_targets()[i].0 == TargetKind::Internal ==> registry_targets()[i].1.len() == 0,
        registry_targets()[i].0 != TargetKind::Resource,
{
    reveal(registry_targets);
    reveal_strlit("org-read");
    reveal_strlit("org-read-headline");
    reveal_strlit("org-outline");
    reveal_strlit("org-ql-query");
    reveal_strlit("query-inbox");
    reveal_strlit("query-next");
    reveal_strlit("query-backlog");
    reveal_strlit("org-update-todo-state");
    reveal_strlit("org-add-todo");
    reveal_strlit("org-edit-rename");
    reveal_strlit("org-edit-body");
    reveal_strlit("org-edit-properties");
    reveal_strlit("org-edit-tags");
    reveal_strlit("org-edit-priority");
    reveal_strlit("org-edit-scheduled");
    reveal_strlit("org-edit-deadline");
    reveal_strlit("org-edit-log-note");
    reveal_strlit("org-clock-status");
    reveal_strlit("org-clock-in");
    reveal_strlit("org-clock-out");
    reveal_strlit("org-clock-add");
    reveal_strlit("org-clock-delete");
    reveal_strlit("org-clock-dangling");
    reveal_strlit("org-config-todo");
    reveal_strlit("org-config-tags");
    reveal_strlit("org-config-tag-candidates");
    reveal_strlit("org-config-priority");
    reveal_strlit("org-config-files");
    reveal_strlit("org-config-clock");
    reveal_strlit("");
}


} // verus!
