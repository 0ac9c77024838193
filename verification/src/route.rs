//! What `org` does with a parsed command line: answer locally, refuse it,
//! or talk to the server; and which command spawns the server.
use vstd::prelude::*;
use crate::cli::{Cli, Commands, ToolsCmd};
use crate::dispatch::{
    built_as, call_model, follows_exit_table, cmd_clock, cmd_config, cmd_edit, cmd_outline, cmd_query, cmd_read,
    cmd_read_headline, cmd_schema, cmd_todo, is_usage, schema_answer, spec_clock, spec_edit,
    spec_query, spec_todo, uri_call, usage_failure, CallModel, Failure, ToolCall,
};
use crate::json::{model, Json, JsonValue};
use crate::output::ErrorKind;
use crate::uri::{org_prefix, validate_outline_path};

verus! {

/// What to do once the server is up.
#[derive(Debug)]
pub enum Action {
    /// `tools list`: report the server's tool list.
    ToolsList,
    /// `tools call`: call the named tool with the `--args` document, which
    /// the caller parses (see [`crate::dispatch::tools_call_arguments`]).
    ToolsCall { name: String, args: Option<String> },
    /// Any other command: make this call and report its result.
    Call(ToolCall),
}

/// The outcome of reading a command line.
#[derive(Debug)]
pub enum Plan {
    /// Answered without a server (`schema`): the success data.
    Local(JsonValue),
    /// Refused before any server is spawned.
    Fail(Failure),
    /// The server is needed for this.
    Remote(Action),
}

/// The message for `org outline` given an `org://` URI.
pub open spec fn outline_uri_message() -> Seq<char> {
    "org outline expects a file path, not an org:// URI"@
}

/// Whether `p` is the plan of a command whose call is `m`.
pub open spec fn plans_call(p: Plan, m: CallModel) -> bool {
    p matches Plan::Remote(Action::Call(c)) && call_model(c) == m
}

/// Whether `p` is the plan of a command that builds `m` (a call, or a
/// usage error).
pub open spec fn plans_built(p: Plan, m: Result<CallModel, Seq<char>>) -> bool {
    match p {
        Plan::Remote(Action::Call(c)) => built_as(Ok(c), m),
        Plan::Fail(f) => built_as(Err(f), m),
        _ => false,
    }
}

/// Whether `p` is the plan of the command `c`.
pub open spec fn planned(p: Plan, c: Commands) -> bool {
    match c {
        Commands::Schema(a) => match p {
            Plan::Local(v) => schema_answer(a.path@, Ok(v)),
            Plan::Fail(f) => schema_answer(a.path@, Err(f)),
            _ => false,
        },
        Commands::Outline { file } => if org_prefix().is_prefix_of(file@) {
            p matches Plan::Fail(f) && is_usage(f, outline_uri_message())
        } else {
            plans_call(
                p,
                CallModel {
                    tool: "org-outline"@,
                    arguments: Json::Object(seq![("file"@, Json::Str(file@))]),
                    gated: false,
                },
            )
        },
        Commands::Read { uri } => plans_call(p, uri_call("org-read"@, "uri"@, uri@)),
        Commands::ReadHeadline { uri } => plans_call(p, uri_call("org-read-headline"@, "uri"@, uri@)),
        Commands::Query(a) => plans_built(p, spec_query(a)),
        Commands::Todo(a) => plans_call(p, spec_todo(a)),
        Commands::Tools { cmd } => match cmd {
            ToolsCmd::List => p matches Plan::Remote(Action::ToolsList),
            ToolsCmd::Call { name, args } => p matches Plan::Remote(
                Action::ToolsCall { name: n, args: a },
            ) && n@ == name@ && a == args,
        },
        Commands::Edit(a) => plans_built(p, spec_edit(a.kind)),
        Commands::Clock(a) => plans_call(p, spec_clock(a.kind)),
        Commands::Config(a) => plans_call(
            p,
            CallModel {
                tool: crate::dispatch::config_tool(a.kind),
                arguments: Json::Object(Seq::empty()),
                gated: false,
            },
        ),
    }
}

fn from_built(r: Result<ToolCall, Failure>) -> (p: Plan)
    ensures
        forall|m: Result<CallModel, Seq<char>>| built_as(r, m) ==> plans_built(p, m),
{
    match r {
        Ok(c) => Plan::Remote(Action::Call(c)),
        Err(f) => Plan::Fail(f),
    }
}

/// Reads a command line: `schema` is answered locally, `outline` refuses
/// an `org://` URI, a malformed command is a usage error, and every other
/// command names what the server is asked.
pub fn plan(cli: &Cli) -> (p: Plan)
    ensures
        planned(p, cli.command),
        p matches Plan::Fail(f) ==> f.kind == ErrorKind::Usage && f.exit_code == 2
            && follows_exit_table(f),
{
    match &cli.command {
        Commands::Schema(a) => match cmd_schema(a) {
            Ok(v) => Plan::Local(v),
            Err(f) => Plan::Fail(f),
        },
        Commands::Outline { file } => match validate_outline_path(file.as_str()) {
            Ok(_) => Plan::Remote(Action::Call(cmd_outline(file.as_str()))),
            Err(e) => Plan::Fail(usage_failure(e.message())),
        },
        Commands::Read { uri } => Plan::Remote(Action::Call(cmd_read(uri.as_str()))),
        Commands::ReadHeadline { uri } => Plan::Remote(
            Action::Call(cmd_read_headline(uri.as_str())),
        ),
        Commands::Query(a) => from_built(cmd_query(a)),
        Commands::Todo(a) => Plan::Remote(Action::Call(cmd_todo(a))),
        Commands::Tools { cmd } => match cmd {
            ToolsCmd::List => Plan::Remote(Action::ToolsList),
            ToolsCmd::Call { name, args } => Plan::Remote(
                Action::ToolsCall { name: name.clone(), args: args.clone() },
            ),
        },
        Commands::Edit(a) => from_built(cmd_edit(a)),
        Commands::Clock(a) => Plan::Remote(Action::Call(cmd_clock(a))),
        Commands::Config(a) => Plan::Remote(Action::Call(cmd_config(a))),
    }
}

/// Whether `f` reports a failed launcher search: kind `usage`, code 2,
/// exit code 4, no data.
pub open spec fn is_discovery_failure(f: Failure, message: Seq<char>) -> bool {
    &&& f.kind == ErrorKind::Usage
    &&& f.code == 2
    &&& f.exit_code == 4
    &&& f.message@ == message
    &&& model(f.data) == Json::Null
}

/// The command that spawns the server: `--server` when given, otherwise
/// the launcher found in `$PATH` (`discovered`, the outcome of
/// [`crate::discovery::discover_server`], consulted only then); the
/// `--server-arg` values follow either. A failed search is a usage error
/// with exit code 4.
pub fn server_command(cli: &Cli, discovered: Result<Vec<String>, String>) -> (r: Result<
    Vec<String>,
    Failure,
>)
    ensures
        match cli.server {
            Some(cmd) => (r matches Ok(argv) && argv@ == seq![cmd] + cli.server_args@),
            None => match discovered {
                Ok(found) => (r matches Ok(argv) && argv@ == found@ + cli.server_args@),
                Err(m) => (r matches Err(f) && is_discovery_failure(f, m@)),
            },
        },
        r matches Err(f) ==> follows_exit_table(f),
{
    match &cli.server {
        Some(_) => match cli.server_argv() {
            Ok(argv) => Ok(argv),
            Err(m) => Err(usage_failure(m)),
        },
        None => match discovered {
            Ok(found) => {
                let mut argv = found;
                let ghost start = argv@;
                let mut i: usize = 0;
                while i < cli.server_args.len()
                    invariant
                        i <= cli.server_args@.len(),
                        argv@ == start + cli.server_args@.subrange(0, i as int),
                    decreases cli.server_args@.len() - i,
                {
                    argv.push(cli.server_args[i].clone());
                    assert(cli.server_args@.subrange(0, i + 1) =~= cli.server_args@.subrange(
                        0,
                        i as int,
                    ).push(cli.server_args@[i as int]));
                    i = i + 1;
                }
                assert(cli.server_args@.subrange(0, i as int) =~= cli.server_args@);
                Ok(argv)
            },
            Err(m) => Err(
                Failure { kind: ErrorKind::Usage, code: 2, message: m, data: JsonValue::Null, exit_code: 4 },
            ),
        },
    }
}

} // verus!
