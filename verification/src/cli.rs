//! The command line of `org`, as plain values.
//!
//! `--server <cmd>` names the launcher; `--server-arg <arg>` (repeatable)
//! adds its arguments. When `--server` is omitted the launcher is searched
//! for in `$PATH` (see [`crate::discovery`]).
use vstd::prelude::*;
use crate::argv::str_views;

verus! {

/// The whole command line.
#[derive(Debug)]
pub struct Cli {
    /// Path to the MCP server executable (e.g. emacs-mcp-stdio.sh).
    pub server: Option<String>,
    /// Additional arguments to pass to the server executable.
    pub server_args: Vec<String>,
    /// Emit compact single-line JSON instead of pretty-printed output.
    pub compact: bool,
    /// Per-read timeout in seconds for the stdio transport; 0 disables it.
    pub timeout: u64,
    pub command: Commands,
}

/// The subcommands.
#[derive(Debug)]
pub enum Commands {
    /// Read an org node and its children as JSON.
    Read { uri: String },
    /// Read an org node as plain text (wrapped as JSON).
    ReadHeadline { uri: String },
    /// List the outline of an org file.
    Outline { file: String },
    /// Query org files with org-ql or GTD tools.
    Query(QueryArgs),
    /// Manage TODO states and create new TODO nodes.
    Todo(TodoArgs),
    /// Low-level MCP tool access.
    Tools { cmd: ToolsCmd },
    /// Edit org node attributes.
    Edit(EditArgs),
    /// Clock operations.
    Clock(ClockArgs),
    /// Introspect org-mcp configuration.
    Config(ConfigArgs),
    /// Emit machine-readable schema metadata for CLI commands.
    Schema(SchemaArgs),
}

/// Arguments of `config`.
#[derive(Debug)]
pub struct ConfigArgs {
    pub kind: ConfigKind,
}

/// The `config` variants.
#[derive(Debug)]
pub enum ConfigKind {
    Todo,
    Tags,
    TagCandidates,
    Priority,
    Files,
    Clock,
}

/// Arguments of `query`: either the bare form `org query "<expr>"` or one of
/// the subcommands.
#[derive(Debug)]
pub struct QueryArgs {
    /// org-ql query expression (bare form).
    pub ql_expr: Option<String>,
    /// Org files to search; used with the bare expression form.
    pub files: Vec<String>,
    pub kind: Option<QueryKind>,
}

/// The `query` subcommands.
#[derive(Debug)]
pub enum QueryKind {
    /// Run an arbitrary org-ql expression.
    Run { ql_expr: String, files: Vec<String> },
    /// Query the GTD inbox.
    Inbox,
    /// Query GTD next actions.
    Next { tag: Option<String> },
    /// Query the GTD backlog.
    Backlog { tag: Option<String> },
}

/// Arguments of `todo`.
#[derive(Debug)]
pub struct TodoArgs {
    pub kind: TodoKind,
}

/// The `todo` subcommands.
#[derive(Debug)]
pub enum TodoKind {
    /// Update the TODO state of a node.
    State { uri: String, new_state: String, from: Option<String>, note: Option<String> },
    /// Add a new TODO node.
    Add {
        parent: String,
        title: String,
        state: String,
        body: Option<String>,
        tags: Vec<String>,
        after: Option<String>,
    },
}

/// Arguments of `edit`.
#[derive(Debug)]
pub struct EditArgs {
    pub kind: EditKind,
}

/// The `edit` subcommands.
#[derive(Debug)]
pub enum EditKind {
    /// Rename a node headline.
    Rename { uri: String, from: String, to: String },
    /// Edit the body text of a node.
    Body { uri: String, new: String, old: Option<String>, append: bool },
    /// Set and/or unset node properties (`--set k=v`, `--unset k`).
    Properties { uri: String, sets: Vec<String>, unsets: Vec<String> },
    /// Set tags on a node (replaces existing tags).
    Tags { uri: String, tags: Vec<String> },
    /// Set the priority of a node (none clears it).
    Priority { uri: String, priority: Option<String> },
    /// Set or clear the SCHEDULED date of a node.
    Scheduled { uri: String, date: Option<String> },
    /// Set or clear the DEADLINE date of a node.
    Deadline { uri: String, date: Option<String> },
    /// Add a logbook note to a node.
    LogNote { uri: String, note: String },
}

/// Arguments of `clock`.
#[derive(Debug)]
pub struct ClockArgs {
    pub kind: ClockKind,
}

/// The `clock` subcommands.
#[derive(Debug)]
pub enum ClockKind {
    /// Get the current clock status.
    Status,
    /// Clock in to a node.
    In { uri: String, at: Option<String>, resolve: bool },
    /// Clock out of the active clock.
    Out { uri: Option<String>, at: Option<String> },
    /// Add a clock entry to a node.
    Add { uri: String, start: String, end: String },
    /// Delete a clock entry from a node.
    Delete { uri: String, at: String },
    /// List dangling (unclosed) clock entries.
    Dangling,
}

/// Arguments of `schema`: the command path to look up; empty for all.
#[derive(Debug)]
pub struct SchemaArgs {
    pub path: Vec<String>,
}

/// The `tools` subcommands.
#[derive(Debug)]
pub enum ToolsCmd {
    /// List all tools exposed by the MCP server.
    List,
    /// Call a named MCP tool with optional JSON arguments.
    Call { name: String, args: Option<String> },
}

/// The names of the subcommands, as typed on the command line. After a
/// top-level `--` the first of them ends the launcher arguments.
pub open spec fn subcommand_names() -> Seq<Seq<char>> {
    seq![
        "read"@,
        "read-headline"@,
        "outline"@,
        "query"@,
        "todo"@,
        "edit"@,
        "clock"@,
        "config"@,
        "schema"@,
        "tools"@,
    ]
}

/// The names of the subcommands, as typed on the command line.
pub fn subcommands() -> (r: Vec<&'static str>)
    ensures
        str_views(r@) == subcommand_names(),
{
    let r = vec![
        "read",
        "read-headline",
        "outline",
        "query",
        "todo",
        "edit",
        "clock",
        "config",
        "schema",
        "tools",
    ];
    assert(str_views(r@) =~= subcommand_names());
    r
}

impl Cli {
    /// The command line with the launcher arguments found after a top-level
    /// `--` (see [`crate::argv::split_sentinel`]) added after the
    /// `--server-arg` values, so that both forms launch the same server.
    pub fn with_launcher_args(self, extra: Vec<String>) -> (r: Cli)
        ensures
            r.server == self.server,
            r.server_args@ == self.server_args@ + extra@,
            r.compact == self.compact,
            r.timeout == self.timeout,
            r.command == self.command,
    {
        let Cli { server, server_args, compact, timeout, command } = self;
        let mut args = server_args;
        let mut extra = extra;
        let ghost a = args@;
        let ghost e = extra@;
        args.append(&mut extra);
        assert(args@ =~= a + e);
        Cli { server, server_args: args, compact, timeout, command }
    }

    /// The command line that spawns the server: `--server` followed by the
    /// `--server-arg` values; an error when no server is configured.
    pub fn server_argv(&self) -> (r: Result<Vec<String>, String>)
        ensures
            match self.server {
                Some(cmd) => (r matches Ok(argv) && argv@ == seq![cmd] + self.server_args@),
                None => (r matches Err(m) && m@ == "no --server specified"@),
            },
    {
        match &self.server {
            Some(cmd) => {
                let mut argv: Vec<String> = Vec::new();
                argv.push(cmd.clone());
                let mut i: usize = 0;
                while i < self.server_args.len()
                    invariant
                        i <= self.server_args@.len(),
                        argv@ == seq![*cmd] + self.server_args@.subrange(0, i as int),
                    decreases self.server_args@.len() - i,
                {
                    argv.push(self.server_args[i].clone());
                    assert(self.server_args@.subrange(0, i + 1) =~= self.server_args@.subrange(
                        0,
                        i as int,
                    ).push(self.server_args@[i as int]));
                    i = i + 1;
                }
                assert(self.server_args@.subrange(0, i as int) =~= self.server_args@);
                Ok(argv)
            },
            None => Err("no --server specified".to_owned()),
        }
    }
}

} // verus!
