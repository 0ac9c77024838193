//! What each command asks of the server and how its outcome is reported.
//! The caller spawns the server, sends the calls built here and prints the
//! envelopes built here.
use vstd::prelude::*;
use crate::argv::views;
use crate::cli::{SchemaArgs, ClockArgs, ClockKind, ConfigArgs, ConfigKind, EditArgs, EditKind, QueryArgs, QueryKind, TodoArgs, TodoKind};
use crate::argv::str_views;
use crate::contract::{find_path, registry_docs, serialize_all, serialize_one, spec_schema_all};
use crate::json_text::{json_error_text, json_of_text, parse_json};
use crate::json::{
    json_str, json_str_array, lemma_models, model, models, str_eq, ArrayBuilder, Json, JsonValue,
    ObjectBuilder,
};
use crate::mcp::error::{spec_exit_code, spec_message, McpError};
use crate::output::{error_envelope, spec_error, ErrorKind};
use crate::uri::{bare, normalize_for_tool};

verus! {

/// A tool invocation: the tool's name, its arguments, and whether the tool
/// is optional on the server, so that its presence is checked first.
#[derive(Debug)]
pub struct ToolCall {
    pub tool: String,
    pub arguments: JsonValue,
    pub gated: bool,
}

/// The meaning of a tool invocation.
pub struct CallModel {
    pub tool: Seq<char>,
    pub arguments: Json,
    pub gated: bool,
}

/// The meaning of a [`ToolCall`].
pub open spec fn call_model(c: ToolCall) -> CallModel {
    CallModel { tool: c.tool@, arguments: model(c.arguments), gated: c.gated }
}

/// A failed command: what its error envelope reports.
#[derive(Debug)]
pub struct Failure {
    pub kind: ErrorKind,
    pub code: i64,
    pub message: String,
    pub data: JsonValue,
    pub exit_code: i32,
}

impl Failure {
    /// The error envelope of the failure.
    pub fn to_envelope(self) -> (r: JsonValue)
        ensures
            model(r) == spec_error(self.kind, self.code, self.message@, model(self.data), self.exit_code),
    {
        error_envelope(self.kind, self.code, self.message, self.data, self.exit_code)
    }
}

/// Whether a failure exits with the code its kind calls for: 1 for a tool
/// error, 2 for a usage error (4 when the launcher was not found), 3 for a
/// transport or protocol failure (4 when the server could not be spawned).
pub open spec fn follows_exit_table(f: Failure) -> bool {
    match f.kind {
        ErrorKind::Tool => f.exit_code == 1,
        ErrorKind::Usage => f.exit_code == 2 || f.exit_code == 4,
        ErrorKind::Transport => f.exit_code == 3 || f.exit_code == 4,
    }
}

/// Whether a failure is the usage error with the given message: kind
/// `usage`, code 2, exit code 2, no data.
pub open spec fn is_usage(f: Failure, message: Seq<char>) -> bool {
    &&& f.kind == ErrorKind::Usage
    &&& f.code == 2
    &&& f.exit_code == 2
    &&& f.message@ == message
    &&& model(f.data) == Json::Null
}

/// A usage error (exit code 2) with the given message.
pub fn usage_failure(message: String) -> (r: Failure)
    ensures
        is_usage(r, message@),
        follows_exit_table(r),
{
    Failure { kind: ErrorKind::Usage, code: 2, message, data: JsonValue::Null, exit_code: 2 }
}

/// How an MCP failure is reported: a tool error as kind `tool`, any other
/// as kind `transport`; the JSON-RPC code (-1 when there is none), the
/// error's text, the server's data for a tool error (null otherwise), and
/// the error's exit code.
pub fn handle_mcp_error(e: McpError) -> (r: Failure)
    ensures
        reports_mcp_error(r, e),
        follows_exit_table(r),
{
    let exit_code = e.exit_code();
    let code = e.rpc_code();
    let message = e.message();
    let kind = if let McpError::ToolError { .. } = e {
        ErrorKind::Tool
    } else {
        ErrorKind::Transport
    };
    let data = match e {
        McpError::ToolError { data, .. } => data,
        _ => JsonValue::Null,
    };
    Failure { kind, code, message, data, exit_code }
}

/// An optional string member: present when the value is.
pub open spec fn opt_str(key: Seq<char>, v: Option<String>) -> Seq<(Seq<char>, Json)> {
    match v {
        Some(s) => seq![(key, Json::Str(s@))],
        None => Seq::empty(),
    }
}

/// An optional identifier member: present, normalised, when the value is.
pub open spec fn opt_bare(key: Seq<char>, v: Option<String>) -> Seq<(Seq<char>, Json)> {
    match v {
        Some(s) => seq![(key, Json::Str(bare(s@)))],
        None => Seq::empty(),
    }
}

/// A string or null.
pub open spec fn str_or_null(v: Option<String>) -> Json {
    match v {
        Some(s) => Json::Str(s@),
        None => Json::Null,
    }
}

/// An array of strings.
pub open spec fn str_array(v: Seq<String>) -> Json {
    Json::Array(Seq::new(v.len(), |i: int| Json::Str(v[i]@)))
}

fn add_opt_str(b: &mut ObjectBuilder, key: &str, v: &Option<String>)
    ensures
        final(b).members() == old(b).members() + opt_str(key@, *v),
{
    match v {
        Some(s) => {
            b.add(key, json_str(s.as_str()));
        },
        None => {},
    }
    assert(final(b).members() =~= old(b).members() + opt_str(key@, *v));
}

fn add_opt_bare(b: &mut ObjectBuilder, key: &str, v: &Option<String>)
    ensures
        final(b).members() == old(b).members() + opt_bare(key@, *v),
{
    match v {
        Some(s) => {
            b.add(key, JsonValue::Str(normalize_for_tool(s.as_str())));
        },
        None => {},
    }
    assert(final(b).members() =~= old(b).members() + opt_bare(key@, *v));
}

fn str_or_null_exec(v: &Option<String>) -> (r: JsonValue)
    ensures
        model(r) == str_or_null(*v),
{
    match v {
        Some(s) => json_str(s.as_str()),
        None => JsonValue::Null,
    }
}

fn call(tool: &str, b: ObjectBuilder) -> (r: ToolCall)
    ensures
        call_model(r) == (CallModel { tool: tool@, arguments: Json::Object(b.members()), gated: false }),
{
    ToolCall { tool: tool.to_owned(), arguments: b.build(), gated: false }
}

/// A call of `tool` with a single identifier argument, normalised.
pub open spec fn uri_call(tool: Seq<char>, key: Seq<char>, uri: Seq<char>) -> CallModel {
    CallModel { tool, arguments: Json::Object(seq![(key, Json::Str(bare(uri)))]), gated: false }
}

/// `org read <uri>`: the tool `org-read` with the bare identifier.
pub fn cmd_read(uri: &str) -> (r: ToolCall)
    ensures
        call_model(r) == uri_call("org-read"@, "uri"@, uri@),
{
    let mut b = ObjectBuilder::new();
    b.add("uri", JsonValue::Str(normalize_for_tool(uri)));
    assert(b.members() =~= seq![("uri"@, Json::Str(bare(uri@)))]);
    call("org-read", b)
}

/// `org read-headline <uri>`: the tool `org-read-headline` with the bare
/// identifier.
pub fn cmd_read_headline(uri: &str) -> (r: ToolCall)
    ensures
        call_model(r) == uri_call("org-read-headline"@, "uri"@, uri@),
{
    let mut b = ObjectBuilder::new();
    b.add("uri", JsonValue::Str(normalize_for_tool(uri)));
    assert(b.members() =~= seq![("uri"@, Json::Str(bare(uri@)))]);
    call("org-read-headline", b)
}

/// `org outline <file>`: the tool `org-outline` with the path as given.
pub fn cmd_outline(file: &str) -> (r: ToolCall)
    ensures
        call_model(r) == (CallModel {
            tool: "org-outline"@,
            arguments: Json::Object(seq![("file"@, Json::Str(file@))]),
            gated: false,
        }),
{
    let mut b = ObjectBuilder::new();
    b.add("file", json_str(file));
    assert(b.members() =~= seq![("file"@, Json::Str(file@))]);
    call("org-outline", b)
}

/// The org-ql query call.
pub open spec fn spec_query_run(ql_expr: Seq<char>, files: Seq<String>) -> CallModel {
    CallModel {
        tool: "org-ql-query"@,
        arguments: Json::Object(seq![("ql_expr"@, Json::Str(ql_expr)), ("files"@, str_array(files))]),
        gated: false,
    }
}

/// `org query run <expr> [--files f]...`: the tool `org-ql-query` with the
/// expression and the file list (empty when none is given).
pub fn cmd_query_run(ql_expr: &str, files: &Vec<String>) -> (r: ToolCall)
    ensures
        call_model(r) == spec_query_run(ql_expr@, files@),
{
    let mut b = ObjectBuilder::new();
    b.add("ql_expr", json_str(ql_expr));
    b.add("files", json_str_array(files));
    assert(b.members() =~= seq![("ql_expr"@, Json::Str(ql_expr@)), ("files"@, str_array(files@))]);
    call("org-ql-query", b)
}

/// A GTD query call: optional on the server, with the tag when given.
pub open spec fn spec_query_gtd(tool: Seq<char>, tag: Option<String>) -> CallModel {
    CallModel { tool, arguments: Json::Object(opt_str("tag"@, tag)), gated: true }
}

/// `org query inbox|next|backlog [--tag t]`: the GTD tool, whose presence
/// on the server is checked before the call.
pub fn cmd_query_gtd(tool: &str, tag: &Option<String>) -> (r: ToolCall)
    ensures
        call_model(r) == spec_query_gtd(tool@, *tag),
{
    let mut b = ObjectBuilder::new();
    add_opt_str(&mut b, "tag", tag);
    assert(b.members() =~= opt_str("tag"@, *tag));
    ToolCall { tool: tool.to_owned(), arguments: b.build(), gated: true }
}

/// The message for a GTD tool the server does not advertise.
pub open spec fn gtd_missing_message(tool: Seq<char>) -> Seq<char> {
    "GTD tool '"@ + tool
        + "' not advertised by server (org-mcp GTD support is optional and conditional on runtime config)"@
}

/// The failure for a GTD tool the server does not advertise: a usage error
/// with code -1 and exit code 2.
pub fn gtd_not_advertised(tool: &str) -> (r: Failure)
    ensures
        r.kind == ErrorKind::Usage,
        r.code == -1,
        r.exit_code == 2,
        r.message@ == gtd_missing_message(tool@),
        model(r.data) == Json::Null,
        follows_exit_table(r),
{
    let mut m = "GTD tool '".to_owned();
    m.append(tool);
    m.append(
        "' not advertised by server (org-mcp GTD support is optional and conditional on runtime config)",
    );
    Failure { kind: ErrorKind::Usage, code: -1, message: m, data: JsonValue::Null, exit_code: 2 }
}

/// The message for `org query` with neither an expression nor a subcommand.
pub open spec fn query_missing_message() -> Seq<char> {
    "org query needs an org-ql expression or a subcommand (run, inbox, next, backlog)"@
}

/// The call of a `query` command line.
pub open spec fn spec_query(a: QueryArgs) -> Result<CallModel, Seq<char>> {
    match a.kind {
        Some(QueryKind::Run { ql_expr, files }) => Ok(spec_query_run(ql_expr@, files@)),
        Some(QueryKind::Inbox) => Ok(spec_query_gtd("query-inbox"@, None)),
        Some(QueryKind::Next { tag }) => Ok(spec_query_gtd("query-next"@, tag)),
        Some(QueryKind::Backlog { tag }) => Ok(spec_query_gtd("query-backlog"@, tag)),
        None => match a.ql_expr {
            Some(e) => Ok(spec_query_run(e@, a.files@)),
            None => Err(query_missing_message()),
        },
    }
}

/// Whether a build result matches its model: the same call, or a usage
/// error with the model's message.
pub open spec fn built_as(r: Result<ToolCall, Failure>, m: Result<CallModel, Seq<char>>) -> bool {
    match m {
        Ok(c) => (r matches Ok(t) && call_model(t) == c),
        Err(msg) => (r matches Err(f) && is_usage(f, msg)),
    }
}

/// `org query ...`: a subcommand decides the call; without one, the bare
/// expression runs as `query run` with the `--files` given; with neither,
/// a usage error.
pub fn cmd_query(args: &QueryArgs) -> (r: Result<ToolCall, Failure>)
    ensures
        built_as(r, spec_query(*args)),
{
    match &args.kind {
        Some(QueryKind::Run { ql_expr, files }) => Ok(cmd_query_run(ql_expr.as_str(), files)),
        Some(QueryKind::Inbox) => Ok(cmd_query_gtd("query-inbox", &None)),
        Some(QueryKind::Next { tag }) => Ok(cmd_query_gtd("query-next", tag)),
        Some(QueryKind::Backlog { tag }) => Ok(cmd_query_gtd("query-backlog", tag)),
        None => match &args.ql_expr {
            Some(e) => Ok(cmd_query_run(e.as_str(), &args.files)),
            None => Err(
                usage_failure(
                    "org query needs an org-ql expression or a subcommand (run, inbox, next, backlog)".to_owned(),
                ),
            ),
        },
    }
}

/// The `todo state` call.
pub open spec fn spec_todo_state(
    uri: Seq<char>,
    new_state: Seq<char>,
    from: Option<String>,
    note: Option<String>,
) -> CallModel {
    CallModel {
        tool: "org-update-todo-state"@,
        arguments: Json::Object(
            seq![("uri"@, Json::Str(bare(uri))), ("new_state"@, Json::Str(new_state))] + opt_str(
                "from"@,
                from,
            ) + opt_str("note"@, note),
        ),
        gated: false,
    }
}

/// `org todo state <uri> <state> [--from s] [--note n]`: the tool
/// `org-update-todo-state`; `from` and `note` are sent only when given.
pub fn cmd_todo_state(
    uri: &str,
    new_state: &str,
    from: &Option<String>,
    note: &Option<String>,
) -> (r: ToolCall)
    ensures
        call_model(r) == spec_todo_state(uri@, new_state@, *from, *note),
{
    let mut b = ObjectBuilder::new();
    b.add("uri", JsonValue::Str(normalize_for_tool(uri)));
    b.add("new_state", json_str(new_state));
    add_opt_str(&mut b, "from", from);
    add_opt_str(&mut b, "note", note);
    assert(b.members() =~= seq![("uri"@, Json::Str(bare(uri@))), ("new_state"@, Json::Str(new_state@))]
        + opt_str("from"@, *from) + opt_str("note"@, *note));
    call("org-update-todo-state", b)
}

/// The `todo add` call.
pub open spec fn spec_todo_add(
    parent: Seq<char>,
    title: Seq<char>,
    state: Seq<char>,
    body: Option<String>,
    tags: Seq<String>,
    after: Option<String>,
) -> CallModel {
    CallModel {
        tool: "org-add-todo"@,
        arguments: Json::Object(
            seq![
                ("parent_uri"@, Json::Str(bare(parent))),
                ("title"@, Json::Str(title)),
                ("state"@, Json::Str(state)),
                ("tags"@, str_array(tags)),
            ] + opt_str("body"@, body) + opt_bare("after_uri"@, after),
        ),
        gated: false,
    }
}

/// `org todo add --parent p --title t --state s [--body b] [--tag t]...
/// [--after a]`: the tool `org-add-todo`; the tags are always sent (empty
/// when none), the body and the bare `after_uri` only when given.
pub fn cmd_todo_add(
    parent: &str,
    title: &str,
    state: &str,
    body: &Option<String>,
    tags: &Vec<String>,
    after: &Option<String>,
) -> (r: ToolCall)
    ensures
        call_model(r) == spec_todo_add(parent@, title@, state@, *body, tags@, *after),
{
    let mut b = ObjectBuilder::new();
    b.add("parent_uri", JsonValue::Str(normalize_for_tool(parent)));
    b.add("title", json_str(title));
    b.add("state", json_str(state));
    b.add("tags", json_str_array(tags));
    add_opt_str(&mut b, "body", body);
    add_opt_bare(&mut b, "after_uri", after);
    assert(b.members() =~= seq![
        ("parent_uri"@, Json::Str(bare(parent@))),
        ("title"@, Json::Str(title@)),
        ("state"@, Json::Str(state@)),
        ("tags"@, str_array(tags@)),
    ] + opt_str("body"@, *body) + opt_bare("after_uri"@, *after));
    call("org-add-todo", b)
}

/// The call of a `todo` command line.
pub open spec fn spec_todo(a: TodoArgs) -> CallModel {
    match a.kind {
        TodoKind::State { uri, new_state, from, note } => spec_todo_state(
            uri@,
            new_state@,
            from,
            note,
        ),
        TodoKind::Add { parent, title, state, body, tags, after } => spec_todo_add(
            parent@,
            title@,
            state@,
            body,
            tags@,
            after,
        ),
    }
}

/// `org todo ...`: the call of the subcommand.
pub fn cmd_todo(args: &TodoArgs) -> (r: ToolCall)
    ensures
        call_model(r) == spec_todo(*args),
{
    match &args.kind {
        TodoKind::State { uri, new_state, from, note } => cmd_todo_state(
            uri.as_str(),
            new_state.as_str(),
            from,
            note,
        ),
        TodoKind::Add { parent, title, state, body, tags, after } => cmd_todo_add(
            parent.as_str(),
            title.as_str(),
            state.as_str(),
            body,
            tags,
            after,
        ),
    }
}

/// The position of the first `=` in a `--set` value.
pub open spec fn first_eq(s: Seq<char>, i: int) -> Option<int>
    decreases s.len() - i,
{
    if i < 0 || i >= s.len() {
        None
    } else if s[i] == '=' {
        Some(i)
    } else {
        first_eq(s, i + 1)
    }
}

/// The message for a `--set` value without `=`.
pub open spec fn malformed_set_message(s: Seq<char>) -> Seq<char> {
    "--set expects key=value, got: "@ + s
}

/// The `set` members of `--set k=v` values, each split at its first `=`;
/// the message of the first value without `=` when there is one.
pub open spec fn parse_sets(sets: Seq<Seq<char>>) -> Result<Seq<(Seq<char>, Json)>, Seq<char>>
    decreases sets.len(),
{
    if sets.len() == 0 {
        Ok(Seq::empty())
    } else {
        match parse_sets(sets.drop_last()) {
            Err(e) => Err(e),
            Ok(ms) => {
                let s = sets.last();
                match first_eq(s, 0) {
                    None => Err(malformed_set_message(s)),
                    Some(k) => Ok(ms.push((s.take(k), Json::Str(s.skip(k + 1))))),
                }
            },
        }
    }
}

fn find_eq(s: &str) -> (r: Option<usize>)
    ensures
        match r {
            Some(k) => first_eq(s@, 0) == Some(k as int) && k < s@.len(),
            None => first_eq(s@, 0) is None,
        },
{
    let n = s.unicode_len();
    let mut i: usize = 0;
    while i < n
        invariant
            n == s@.len(),
            i <= n,
            first_eq(s@, 0) == first_eq(s@, i as int),
        decreases n - i,
    {
        if s.get_char(i) == '=' {
            return Some(i);
        }
        i = i + 1;
    }
    None
}

fn set_members(sets: &Vec<String>) -> (r: Result<ObjectBuilder, Failure>)
    ensures
        match parse_sets(views(sets@)) {
            Ok(ms) => (r matches Ok(b) && b.members() == ms),
            Err(m) => (r matches Err(f) && is_usage(f, m)),
        },
{
    let mut b = ObjectBuilder::new();
    let mut i: usize = 0;
    assert(views(sets@).take(0) =~= Seq::<Seq<char>>::empty());
    while i < sets.len()
        invariant
            i <= sets@.len(),
            parse_sets(views(sets@).take(i as int)) == Ok::<Seq<(Seq<char>, Json)>, Seq<char>>(
                b.members(),
            ),
        decreases sets@.len() - i,
    {
        let s = sets[i].as_str();
        let ghost pre = views(sets@).take(i as int);
        let ghost next = views(sets@).take(i + 1);
        assert(next.drop_last() =~= pre);
        assert(next.last() == s@);
        match find_eq(s) {
            None => {
                proof {
                    lemma_parse_sets_err_sticky(views(sets@), i as int + 1);
                }
                let mut m = "--set expects key=value, got: ".to_owned();
                m.append(s);
                return Err(usage_failure(m));
            },
            Some(k) => {
                let n = s.unicode_len();
                let key = s.substring_char(0, k);
                let value = s.substring_char(k + 1, n);
                b.add(key, json_str(value));
                assert(key@ =~= s@.take(k as int));
                assert(value@ =~= s@.skip(k + 1));
            },
        }
        i = i + 1;
    }
    assert(views(sets@).take(sets@.len() as int) =~= views(sets@));
    Ok(b)
}

proof fn lemma_parse_sets_err_sticky(sets: Seq<Seq<char>>, k: int)
    requires
        0 <= k <= sets.len(),
        parse_sets(sets.take(k)) is Err,
    ensures
        parse_sets(sets) == parse_sets(sets.take(k)),
    decreases sets.len() - k,
{
    if k < sets.len() {
        let next = sets.take(k + 1);
        assert(next.drop_last() =~= sets.take(k));
        lemma_parse_sets_err_sticky(sets, k + 1);
    } else {
        assert(sets.take(k) =~= sets);
    }
}

/// The call of an `edit` command line, or the message of a malformed
/// `--set` value.
pub open spec fn spec_edit(k: EditKind) -> Result<CallModel, Seq<char>> {
    match k {
        EditKind::Rename { uri, from, to } => Ok(CallModel {
            tool: "org-edit-rename"@,
            arguments: Json::Object(
                seq![
                    ("uri"@, Json::Str(bare(uri@))),
                    ("from"@, Json::Str(from@)),
                    ("to"@, Json::Str(to@)),
                ],
            ),
            gated: false,
        }),
        EditKind::Body { uri, new, old, append } => Ok(CallModel {
            tool: "org-edit-body"@,
            arguments: Json::Object(
                seq![("resource_uri"@, Json::Str(bare(uri@))), ("new_body"@, Json::Str(new@))]
                    + opt_str("old_body"@, old) + seq![("append"@, Json::Bool(append))],
            ),
            gated: false,
        }),
        EditKind::Properties { uri, sets, unsets } => match parse_sets(views(sets@)) {
            Ok(ms) => Ok(CallModel {
                tool: "org-edit-properties"@,
                arguments: Json::Object(
                    seq![
                        ("uri"@, Json::Str(bare(uri@))),
                        ("set"@, Json::Object(ms)),
                        ("unset"@, str_array(unsets@)),
                    ],
                ),
                gated: false,
            }),
            Err(m) => Err(m),
        },
        EditKind::Tags { uri, tags } => Ok(CallModel {
            tool: "org-edit-tags"@,
            arguments: Json::Object(
                seq![("uri"@, Json::Str(bare(uri@))), ("tags"@, str_array(tags@))],
            ),
            gated: false,
        }),
        EditKind::Priority { uri, priority } => Ok(CallModel {
            tool: "org-edit-priority"@,
            arguments: Json::Object(
                seq![("uri"@, Json::Str(bare(uri@))), ("priority"@, str_or_null(priority))],
            ),
            gated: false,
        }),
        EditKind::Scheduled { uri, date } => Ok(CallModel {
            tool: "org-edit-scheduled"@,
            arguments: Json::Object(
                seq![("uri"@, Json::Str(bare(uri@))), ("date"@, str_or_null(date))],
            ),
            gated: false,
        }),
        EditKind::Deadline { uri, date } => Ok(CallModel {
            tool: "org-edit-deadline"@,
            arguments: Json::Object(
                seq![("uri"@, Json::Str(bare(uri@))), ("date"@, str_or_null(date))],
            ),
            gated: false,
        }),
        EditKind::LogNote { uri, note } => Ok(CallModel {
            tool: "org-edit-log-note"@,
            arguments: Json::Object(
                seq![("uri"@, Json::Str(bare(uri@))), ("note"@, Json::Str(note@))],
            ),
            gated: false,
        }),
    }
}

/// `org edit ...`: the tool and arguments of each subcommand. The body's
/// identifier goes out as `resource_uri` with `new_body`/`old_body` and an
/// `append` flag that is always sent; `--set k=v` values become an object
/// split at the first `=`, and one without `=` is a usage error; an absent
/// priority or date is sent as null, which clears it.
pub fn cmd_edit(args: &EditArgs) -> (r: Result<ToolCall, Failure>)
    ensures
        built_as(r, spec_edit(args.kind)),
{
    match &args.kind {
        EditKind::Rename { uri, from, to } => {
            let mut b = ObjectBuilder::new();
            b.add("uri", JsonValue::Str(normalize_for_tool(uri.as_str())));
            b.add("from", json_str(from.as_str()));
            b.add("to", json_str(to.as_str()));
            assert(b.members() =~= seq![
                ("uri"@, Json::Str(bare(uri@))),
                ("from"@, Json::Str(from@)),
                ("to"@, Json::Str(to@)),
            ]);
            Ok(call("org-edit-rename", b))
        },
        EditKind::Body { uri, new, old, append } => {
            let mut b = ObjectBuilder::new();
            b.add("resource_uri", JsonValue::Str(normalize_for_tool(uri.as_str())));
            b.add("new_body", json_str(new.as_str()));
            add_opt_str(&mut b, "old_body", old);
            b.add("append", JsonValue::Bool(*append));
            assert(b.members() =~= seq![
                ("resource_uri"@, Json::Str(bare(uri@))),
                ("new_body"@, Json::Str(new@)),
            ] + opt_str("old_body"@, *old) + seq![("append"@, Json::Bool(*append))]);
            Ok(call("org-edit-body", b))
        },
        EditKind::Properties { uri, sets, unsets } => {
            let set = match set_members(sets) {
                Ok(sb) => sb,
                Err(f) => {
                    return Err(f);
                },
            };
            let ghost ms = set.members();
            let mut b = ObjectBuilder::new();
            b.add("uri", JsonValue::Str(normalize_for_tool(uri.as_str())));
            b.add("set", set.build());
            b.add("unset", json_str_array(unsets));
            assert(b.members() =~= seq![
                ("uri"@, Json::Str(bare(uri@))),
                ("set"@, Json::Object(ms)),
                ("unset"@, str_array(unsets@)),
            ]);
            Ok(call("org-edit-properties", b))
        },
        EditKind::Tags { uri, tags } => {
            let mut b = ObjectBuilder::new();
            b.add("uri", JsonValue::Str(normalize_for_tool(uri.as_str())));
            b.add("tags", json_str_array(tags));
            assert(b.members() =~= seq![("uri"@, Json::Str(bare(uri@))), ("tags"@, str_array(tags@))]);
            Ok(call("org-edit-tags", b))
        },
        EditKind::Priority { uri, priority } => {
            let mut b = ObjectBuilder::new();
            b.add("uri", JsonValue::Str(normalize_for_tool(uri.as_str())));
            b.add("priority", str_or_null_exec(priority));
            assert(b.members() =~= seq![
                ("uri"@, Json::Str(bare(uri@))),
                ("priority"@, str_or_null(*priority)),
            ]);
            Ok(call("org-edit-priority", b))
        },
        EditKind::Scheduled { uri, date } => {
            let mut b = ObjectBuilder::new();
            b.add("uri", JsonValue::Str(normalize_for_tool(uri.as_str())));
            b.add("date", str_or_null_exec(date));
            assert(b.members() =~= seq![("uri"@, Json::Str(bare(uri@))), ("date"@, str_or_null(*date))]);
            Ok(call("org-edit-scheduled", b))
        },
        EditKind::Deadline { uri, date } => {
            let mut b = ObjectBuilder::new();
            b.add("uri", JsonValue::Str(normalize_for_tool(uri.as_str())));
            b.add("date", str_or_null_exec(date));
            assert(b.members() =~= seq![("uri"@, Json::Str(bare(uri@))), ("date"@, str_or_null(*date))]);
            Ok(call("org-edit-deadline", b))
        },
        EditKind::LogNote { uri, note } => {
            let mut b = ObjectBuilder::new();
            b.add("uri", JsonValue::Str(normalize_for_tool(uri.as_str())));
            b.add("note", json_str(note.as_str()));
            assert(b.members() =~= seq![("uri"@, Json::Str(bare(uri@))), ("note"@, Json::Str(note@))]);
            Ok(call("org-edit-log-note", b))
        },
    }
}

/// How the `--resolve` flag is sent: as the string "true" or "false".
pub open spec fn bool_text(b: bool) -> Seq<char> {
    if b {
        "true"@
    } else {
        "false"@
    }
}

/// The call of a `clock` command line.
pub open spec fn spec_clock(k: ClockKind) -> CallModel {
    match k {
        ClockKind::Status => CallModel {
            tool: "org-clock-get-active"@,
            arguments: Json::Object(Seq::empty()),
            gated: false,
        },
        ClockKind::In { uri, at, resolve } => CallModel {
            tool: "org-clock-in"@,
            arguments: Json::Object(
                seq![("uri"@, Json::Str(bare(uri@))), ("resolve"@, Json::Str(bool_text(resolve)))]
                    + opt_str("start_time"@, at),
            ),
            gated: false,
        },
        ClockKind::Out { uri, at } => CallModel {
            tool: "org-clock-out"@,
            arguments: Json::Object(opt_bare("uri"@, uri) + opt_str("at"@, at)),
            gated: false,
        },
        ClockKind::Add { uri, start, end } => CallModel {
            tool: "org-clock-add"@,
            arguments: Json::Object(
                seq![
                    ("uri"@, Json::Str(bare(uri@))),
                    ("start"@, Json::Str(start@)),
                    ("end"@, Json::Str(end@)),
                ],
            ),
            gated: false,
        },
        ClockKind::Delete { uri, at } => CallModel {
            tool: "org-clock-delete"@,
            arguments: Json::Object(seq![("uri"@, Json::Str(bare(uri@))), ("at"@, Json::Str(at@))]),
            gated: false,
        },
        ClockKind::Dangling => CallModel {
            tool: "org-clock-find-dangling"@,
            arguments: Json::Object(Seq::empty()),
            gated: false,
        },
    }
}

/// `org clock ...`: the tool and arguments of each subcommand. `--resolve`
/// is sent as the string "true"/"false", always; `clock in --at` goes out
/// as `start_time`; an optional identifier or time is sent only when given.
pub fn cmd_clock(args: &ClockArgs) -> (r: ToolCall)
    ensures
        call_model(r) == spec_clock(args.kind),
{
    match &args.kind {
        ClockKind::Status => {
            let b = ObjectBuilder::new();
            call("org-clock-get-active", b)
        },
        ClockKind::In { uri, at, resolve } => {
            let mut b = ObjectBuilder::new();
            b.add("uri", JsonValue::Str(normalize_for_tool(uri.as_str())));
            let flag = if *resolve {
                "true"
            } else {
                "false"
            };
            b.add("resolve", json_str(flag));
            add_opt_str(&mut b, "start_time", at);
            assert(b.members() =~= seq![
                ("uri"@, Json::Str(bare(uri@))),
                ("resolve"@, Json::Str(bool_text(*resolve))),
            ] + opt_str("start_time"@, *at));
            call("org-clock-in", b)
        },
        ClockKind::Out { uri, at } => {
            let mut b = ObjectBuilder::new();
            add_opt_bare(&mut b, "uri", uri);
            add_opt_str(&mut b, "at", at);
            assert(b.members() =~= opt_bare("uri"@, *uri) + opt_str("at"@, *at));
            call("org-clock-out", b)
        },
        ClockKind::Add { uri, start, end } => {
            let mut b = ObjectBuilder::new();
            b.add("uri", JsonValue::Str(normalize_for_tool(uri.as_str())));
            b.add("start", json_str(start.as_str()));
            b.add("end", json_str(end.as_str()));
            assert(b.members() =~= seq![
                ("uri"@, Json::Str(bare(uri@))),
                ("start"@, Json::Str(start@)),
                ("end"@, Json::Str(end@)),
            ]);
            call("org-clock-add", b)
        },
        ClockKind::Delete { uri, at } => {
            let mut b = ObjectBuilder::new();
            b.add("uri", JsonValue::Str(normalize_for_tool(uri.as_str())));
            b.add("at", json_str(at.as_str()));
            assert(b.members() =~= seq![("uri"@, Json::Str(bare(uri@))), ("at"@, Json::Str(at@))]);
            call("org-clock-delete", b)
        },
        ClockKind::Dangling => {
            let b = ObjectBuilder::new();
            call("org-clock-find-dangling", b)
        },
    }
}

/// The tool of a `config` subcommand.
pub open spec fn config_tool(k: ConfigKind) -> Seq<char> {
    match k {
        ConfigKind::Todo => "org-config-todo"@,
        ConfigKind::Tags => "org-config-tags"@,
        ConfigKind::TagCandidates => "org-config-tag-candidates"@,
        ConfigKind::Priority => "org-config-priority"@,
        ConfigKind::Files => "org-config-files"@,
        ConfigKind::Clock => "org-config-clock"@,
    }
}

/// `org config ...`: the configuration tool, with empty arguments.
pub fn cmd_config(args: &ConfigArgs) -> (r: ToolCall)
    ensures
        call_model(r) == (CallModel {
            tool: config_tool(args.kind),
            arguments: Json::Object(Seq::empty()),
            gated: false,
        }),
{
    let tool = match args.kind {
        ConfigKind::Todo => "org-config-todo",
        ConfigKind::Tags => "org-config-tags",
        ConfigKind::TagCandidates => "org-config-tag-candidates",
        ConfigKind::Priority => "org-config-priority",
        ConfigKind::Files => "org-config-files",
        ConfigKind::Clock => "org-config-clock",
    };
    call(tool, ObjectBuilder::new())
}

/// Words joined by single spaces.
pub open spec fn join_words(s: Seq<Seq<char>>) -> Seq<char>
    decreases s.len(),
{
    if s.len() == 0 {
        Seq::empty()
    } else if s.len() == 1 {
        s[0]
    } else {
        join_words(s.drop_last()) + " "@ + s.last()
    }
}

fn join_with_spaces(words: &Vec<String>) -> (r: String)
    ensures
        r@ == join_words(views(words@)),
{
    let mut out = String::new();
    let mut i: usize = 0;
    assert(views(words@).take(0) =~= Seq::<Seq<char>>::empty());
    while i < words.len()
        invariant
            i <= words@.len(),
            out@ == join_words(views(words@).take(i as int)),
        decreases words@.len() - i,
    {
        let ghost next = views(words@).take(i + 1);
        assert(next.drop_last() =~= views(words@).take(i as int));
        if i > 0 {
            out.append(" ");
        } else {
            assert(next =~= seq![words@[0]@]);
        }
        out.append(words[i].as_str());
        i = i + 1;
    }
    assert(views(words@).take(words@.len() as int) =~= views(words@));
    out
}

/// Whether `r` answers `org schema` for the given path: every command
/// without a path, the command with that path otherwise, and a usage error
/// naming an unknown path.
pub open spec fn schema_answer(path: Seq<String>, r: Result<JsonValue, Failure>) -> bool {
    &&& path.len() == 0 ==> (r matches Ok(v) && model(v) == spec_schema_all())
    &&& path.len() > 0 ==> match find_path(views(path)) {
        Some(i) => (r matches Ok(v) && model(v) == Json::Object(
            seq![("command"@, registry_docs()[i])],
        )),
        None => (r matches Err(f) && is_usage(f, "unknown command path: "@ + join_words(views(path)))),
    }
}

/// The payload of `org schema [path...]`: every command without a path, the
/// command with that path otherwise, and a usage error naming an unknown
/// path.
pub fn cmd_schema(args: &SchemaArgs) -> (r: Result<JsonValue, Failure>)
    ensures
        schema_answer(args.path@, r),
{
    if args.path.len() == 0 {
        return Ok(serialize_all());
    }
    let mut refs: Vec<&str> = Vec::new();
    let mut i: usize = 0;
    while i < args.path.len()
        invariant
            i <= args.path@.len(),
            refs@.len() == i,
            forall|k: int| 0 <= k < i ==> (#[trigger] refs@[k])@ == args.path@[k]@,
        decreases args.path@.len() - i,
    {
        refs.push(args.path[i].as_str());
        i = i + 1;
    }
    assert(str_views(refs@) =~= views(args.path@));
    match serialize_one(refs.as_slice()) {
        Some(v) => Ok(v),
        None => {
            let mut m = "unknown command path: ".to_owned();
            m.append(join_with_spaces(&args.path).as_str());
            Err(usage_failure(m))
        },
    }
}

/// The text of a content item, when it has one.
pub open spec fn item_text(item: Json) -> Option<Seq<char>> {
    match item.get("text"@) {
        Some(Json::Str(t)) => Some(t),
        _ => None,
    }
}

/// A member of an object, or null when absent.
pub open spec fn member_or_null(j: Json, key: Seq<char>) -> Json {
    match j.get(key) {
        Some(v) => v,
        None => Json::Null,
    }
}

/// What one content item of a tool reply becomes: a text item gives its
/// text parsed as JSON (`parsed`), or `{"text": ...}` when it is not JSON;
/// an image item gives `{"type": "image", "mime_type", "data"}`; a resource
/// item gives `{"type": "resource", "uri", "mime_type", "text"}` of its
/// resource; any other item is kept as it is.
pub open spec fn convert_item(item: Json, parsed: Option<Json>) -> Json {
    match item_text(item) {
        Some(t) => match parsed {
            Some(p) => p,
            None => Json::Object(seq![("text"@, Json::Str(t))]),
        },
        None => if item.get("type"@) == Some(Json::Str("image"@)) {
            Json::Object(
                seq![
                    ("type"@, Json::Str("image"@)),
                    ("mime_type"@, member_or_null(item, "mimeType"@)),
                    ("data"@, member_or_null(item, "data"@)),
                ],
            )
        } else if item.get("type"@) == Some(Json::Str("resource"@)) {
            let res = member_or_null(item, "resource"@);
            Json::Object(
                seq![
                    ("type"@, Json::Str("resource"@)),
                    ("uri"@, member_or_null(res, "uri"@)),
                    ("mime_type"@, member_or_null(res, "mimeType"@)),
                    ("text"@, member_or_null(res, "text"@)),
                ],
            )
        } else {
            item
        },
    }
}

/// The parse of the text of item `i`, as supplied.
pub open spec fn parsed_at(parsed: Seq<Option<JsonValue>>, i: int) -> Option<Json> {
    if 0 <= i < parsed.len() {
        match parsed[i] {
            Some(v) => Some(model(v)),
            None => None,
        }
    } else {
        None
    }
}

/// The data of a tool reply: a content array with no item gives null, with
/// one item that item converted, with several the array of the converted
/// items; any other content is returned as it is. `parsed[i]` is the
/// parse of the text of item `i` as JSON, if it parses.
pub open spec fn spec_extract(content: Json, parsed: Seq<Option<JsonValue>>) -> Json {
    match content {
        Json::Array(items) => if items.len() == 0 {
            Json::Null
        } else if items.len() == 1 {
            convert_item(items[0], parsed_at(parsed, 0))
        } else {
            Json::Array(Seq::new(items.len(), |i: int| convert_item(items[i], parsed_at(parsed, i))))
        },
        _ => content,
    }
}

/// The texts of the content items of a tool reply, item by item, for the
/// caller to parse as JSON; nothing for content that is not an array.
pub fn item_texts(content: &JsonValue) -> (r: Vec<Option<String>>)
    ensures
        match model(*content) {
            Json::Array(items) => r@.len() == items.len() && forall|i: int|
                0 <= i < items.len() ==> match #[trigger] r@[i] {
                    Some(t) => item_text(items[i]) == Some(t@),
                    None => item_text(items[i]) is None,
                },
            _ => r@.len() == 0,
        },
{
    let mut out: Vec<Option<String>> = Vec::new();
    match content {
        JsonValue::Array(items) => {
            proof {
                lemma_models(items@);
            }
            let mut i: usize = 0;
            while i < items.len()
                invariant
                    i <= items@.len(),
                    out@.len() == i,
                    models(items@).len() == items@.len(),
                    forall|k: int| 0 <= k < items@.len() ==> models(items@)[k] == model(items@[k]),
                    forall|k: int|
                        0 <= k < i ==> match #[trigger] out@[k] {
                            Some(t) => item_text(model(items@[k])) == Some(t@),
                            None => item_text(model(items@[k])) is None,
                        },
                decreases items@.len() - i,
            {
                let t = match items[i].get("text") {
                    Some(JsonValue::Str(t)) => Some(t.clone()),
                    _ => None,
                };
                out.push(t);
                i = i + 1;
            }
            out
        },
        _ => out,
    }
}

fn member_or_null_exec(j: &JsonValue, key: &str) -> (r: JsonValue)
    ensures
        model(r) == member_or_null(model(*j), key@),
{
    match j.get(key) {
        Some(v) => v.duplicate(),
        None => JsonValue::Null,
    }
}

fn is_type(item: &JsonValue, name: &str) -> (r: bool)
    ensures
        r == (model(*item).get("type"@) == Some(Json::Str(name@))),
{
    match item.get("type") {
        Some(JsonValue::Str(t)) => str_eq(t.as_str(), name),
        _ => false,
    }
}

/// Converts one content item; see [`convert_item`].
pub fn convert_content_item(item: &JsonValue, parsed: Option<JsonValue>) -> (r: JsonValue)
    ensures
        model(r) == convert_item(
            model(*item),
            match parsed {
                Some(p) => Some(model(p)),
                None => None,
            },
        ),
{
    if let Some(JsonValue::Str(t)) = item.get("text") {
        return match parsed {
            Some(p) => p,
            None => {
                let mut b = ObjectBuilder::new();
                b.add("text", json_str(t.as_str()));
                assert(b.members() =~= seq![("text"@, Json::Str(t@))]);
                b.build()
            },
        };
    }
    if is_type(item, "image") {
        let mut b = ObjectBuilder::new();
        b.add("type", json_str("image"));
        b.add("mime_type", member_or_null_exec(item, "mimeType"));
        b.add("data", member_or_null_exec(item, "data"));
        assert(b.members() =~= seq![
            ("type"@, Json::Str("image"@)),
            ("mime_type"@, member_or_null(model(*item), "mimeType"@)),
            ("data"@, member_or_null(model(*item), "data"@)),
        ]);
        return b.build();
    }
    if is_type(item, "resource") {
        let res = member_or_null_exec(item, "resource");
        let mut b = ObjectBuilder::new();
        b.add("type", json_str("resource"));
        b.add("uri", member_or_null_exec(&res, "uri"));
        b.add("mime_type", member_or_null_exec(&res, "mimeType"));
        b.add("text", member_or_null_exec(&res, "text"));
        assert(b.members() =~= seq![
            ("type"@, Json::Str("resource"@)),
            ("uri"@, member_or_null(model(res), "uri"@)),
            ("mime_type"@, member_or_null(model(res), "mimeType"@)),
            ("text"@, member_or_null(model(res), "text"@)),
        ]);
        return b.build();
    }
    item.duplicate()
}

fn parsed_item(parsed: &Vec<Option<JsonValue>>, i: usize) -> (r: Option<JsonValue>)
    ensures
        match r {
            Some(v) => parsed_at(parsed@, i as int) == Some(model(v)),
            None => parsed_at(parsed@, i as int) is None,
        },
{
    if i < parsed.len() {
        match &parsed[i] {
            Some(v) => Some(v.duplicate()),
            None => None,
        }
    } else {
        None
    }
}

/// The data of a tool reply, given the parse of each text item; see
/// [`spec_extract`].
pub fn extract_parsed(content: JsonValue, parsed: &Vec<Option<JsonValue>>) -> (r: JsonValue)
    ensures
        model(r) == spec_extract(model(content), parsed@),
{
    match &content {
        JsonValue::Array(items) => {
            proof {
                lemma_models(items@);
            }
            if items.len() == 0 {
                return JsonValue::Null;
            }
            if items.len() == 1 {
                return convert_content_item(&items[0], parsed_item(parsed, 0));
            }
            let mut out = ArrayBuilder::new();
            let mut i: usize = 0;
            while i < items.len()
                invariant
                    i <= items@.len(),
                    models(items@).len() == items@.len(),
                    forall|k: int| 0 <= k < items@.len() ==> models(items@)[k] == model(items@[k]),
                    out.items() =~= Seq::new(
                        i as nat,
                        |k: int| convert_item(models(items@)[k], parsed_at(parsed@, k)),
                    ),
                decreases items@.len() - i,
            {
                out.push(convert_content_item(&items[i], parsed_item(parsed, i)));
                i = i + 1;
            }
            out.build()
        },
        _ => content,
    }
}


/// What the text of a content item is read as, when it has one.
pub open spec fn text_parse(t: Option<String>) -> Option<Json> {
    match t {
        Some(s) => json_of_text(s@),
        None => None,
    }
}

/// What a content item's text is read as, when it has a text.
pub open spec fn item_parse(item: Json) -> Option<Json> {
    match item_text(item) {
        Some(t) => json_of_text(t),
        None => None,
    }
}

/// The data of a tool reply: a content array with no item gives null, with
/// one item that item converted, with several the array of the converted
/// items; any other content is returned as it is. A text item whose text
/// is JSON gives that document, any other text item `{"text": ...}`.
pub open spec fn spec_extract_text(content: Json) -> Json {
    match content {
        Json::Array(items) => if items.len() == 0 {
            Json::Null
        } else if items.len() == 1 {
            convert_item(items[0], item_parse(items[0]))
        } else {
            Json::Array(Seq::new(items.len(), |i: int| convert_item(items[i], item_parse(items[i]))))
        },
        _ => content,
    }
}

/// The data of a tool reply: each text item is read as JSON; see
/// [`spec_extract_text`].
pub fn extract_result(content: JsonValue) -> (r: JsonValue)
    ensures
        model(r) == spec_extract_text(model(content)),
{
    let texts = item_texts(&content);
    let mut parsed: Vec<Option<JsonValue>> = Vec::new();
    let mut i: usize = 0;
    while i < texts.len()
        invariant
            i <= texts@.len(),
            parsed@.len() == i,
            forall|j: int| 0 <= j < i ==> parsed_at(parsed@, j) == text_parse(#[trigger] texts@[j]),
        decreases texts@.len() - i,
    {
        let p: Option<JsonValue> = match &texts[i] {
            Some(t) => match parse_json(t.as_str()) {
                Ok(v) => Some(v),
                Err(_) => None,
            },
            None => None,
        };
        let ghost before = parsed@;
        parsed.push(p);
        assert forall|j: int| 0 <= j < i + 1 implies parsed_at(parsed@, j) == text_parse(
            #[trigger] texts@[j],
        ) by {
            if j < i {
                assert(parsed@[j] == before[j]);
            }
        }
        i = i + 1;
    }
    proof {
        match model(content) {
            Json::Array(items) => {
                assert forall|k: int| 0 <= k < items.len() implies parsed_at(parsed@, k)
                    == item_parse(#[trigger] items[k]) by {
                    assert(parsed_at(parsed@, k) == text_parse(texts@[k]));
                }
                if items.len() > 1 {
                    assert(Seq::new(items.len(), |k: int| convert_item(items[k], parsed_at(parsed@, k)))
                        =~= Seq::new(items.len(), |k: int| convert_item(items[k], item_parse(items[k]))));
                }
            },
            _ => {},
        }
    }
    extract_parsed(content, &parsed)
}

/// The data of `org tools list`: `{"tools": [...]}`.
pub fn tools_list_data(tools: Vec<JsonValue>) -> (r: JsonValue)
    ensures
        model(r) == Json::Object(seq![("tools"@, Json::Array(models(tools@)))]),
{
    let ghost m = models(tools@);
    let mut b = ObjectBuilder::new();
    b.add("tools", JsonValue::Array(tools));
    assert(b.members() =~= seq![("tools"@, Json::Array(m))]);
    b.build()
}

/// The data of `org tools call`: `{"tool": name, "result": ...}`.
pub fn tools_call_data(name: &str, result: JsonValue) -> (r: JsonValue)
    ensures
        model(r) == Json::Object(seq![("tool"@, Json::Str(name@)), ("result"@, model(result))]),
{
    let ghost m = model(result);
    let mut b = ObjectBuilder::new();
    b.add("tool", json_str(name));
    b.add("result", result);
    assert(b.members() =~= seq![("tool"@, Json::Str(name@)), ("result"@, m)]);
    b.build()
}

/// The arguments of `org tools call`, given the parse of `--args`: `{}`
/// without `--args`, the parsed document otherwise, and a usage error when
/// `--args` is not JSON (`Err` carries the parser's message).
pub fn args_from_parse(parsed: Option<Result<JsonValue, String>>) -> (r: Result<JsonValue, Failure>)
    ensures
        match parsed {
            None => (r matches Ok(v) && model(v) == Json::Object(Seq::empty())),
            Some(Ok(v)) => (r matches Ok(w) && model(w) == model(v)),
            Some(Err(e)) => (r matches Err(f) && is_usage(f, "--args is not valid JSON: "@ + e@)),
        },
        r matches Err(f) ==> follows_exit_table(f),
{
    match parsed {
        None => Ok(ObjectBuilder::new().build()),
        Some(Ok(v)) => Ok(v),
        Some(Err(e)) => {
            let mut m = "--args is not valid JSON: ".to_owned();
            m.append(e.as_str());
            Err(usage_failure(m))
        },
    }
}


/// The arguments of `org tools call`: `{}` without `--args`, the document
/// the `--args` text is read as otherwise, and a usage error carrying the
/// parser's message when it is not JSON.
pub fn tools_call_arguments(args: &Option<String>) -> (r: Result<JsonValue, Failure>)
    ensures
        match args {
            None => (r matches Ok(v) && model(v) == Json::Object(Seq::empty())),
            Some(t) => match json_of_text(t@) {
                Some(j) => (r matches Ok(v) && model(v) == j),
                None => (r matches Err(f) && is_usage(
                    f,
                    "--args is not valid JSON: "@ + json_error_text(t@),
                )),
            },
        },
        r matches Err(f) ==> follows_exit_table(f),
{
    let parsed = match args {
        None => None,
        Some(t) => Some(parse_json(t.as_str())),
    };
    args_from_parse(parsed)
}

/// Whether `f` reports the MCP failure `e`: a tool error as kind `tool`,
/// any other as kind `transport`; the JSON-RPC code (-1 when there is
/// none), the error's text, the server's data for a tool error (null
/// otherwise), and the error's exit code.
pub open spec fn reports_mcp_error(f: Failure, e: McpError) -> bool {
    &&& f.kind == (if e is ToolError {
        ErrorKind::Tool
    } else {
        ErrorKind::Transport
    })
    &&& f.code == (match e {
        McpError::ToolError { code, .. } => code as int,
        _ => -1int,
    })
    &&& f.message@ == spec_message(e)
    &&& model(f.data) == (match e {
        McpError::ToolError { data, .. } => model(data),
        _ => Json::Null,
    })
    &&& f.exit_code == spec_exit_code(e)
}

/// Decides whether a call goes ahead. A call that is not gated always does.
/// A gated (GTD) call needs the capability check (`advertised`, the outcome
/// of [`crate::mcp::client::Client::server_has_tool`]): it goes ahead when
/// the server lists the tool, is refused with a usage error (code -1, exit
/// 2) when it does not, and a failed check is reported as that failure.
pub fn admit_call(call: ToolCall, advertised: Option<Result<bool, McpError>>) -> (r: Result<
    ToolCall,
    Failure,
>)
    requires
        call.gated ==> advertised is Some,
    ensures
        !call.gated ==> (r matches Ok(c) && call_model(c) == call_model(call)),
        call.gated ==> match advertised {
            Some(Ok(true)) => (r matches Ok(c) && call_model(c) == call_model(call)),
            Some(Ok(false)) => (r matches Err(f) && f.kind == ErrorKind::Usage && f.code == -1
                && f.exit_code == 2 && f.message@ == gtd_missing_message(call.tool@) && model(
                f.data,
            ) == Json::Null),
            Some(Err(e)) => (r matches Err(f) && reports_mcp_error(f, e)),
            None => false,
        },
        r matches Err(f) ==> follows_exit_table(f),
{
    if !call.gated {
        return Ok(call);
    }
    match advertised {
        Some(Ok(true)) => Ok(call),
        Some(Ok(false)) => Err(gtd_not_advertised(call.tool.as_str())),
        Some(Err(e)) => Err(handle_mcp_error(e)),
        None => Ok(call),
    }
}

} // verus!
