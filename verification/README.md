# org_cli

The logic of `org`, a JSON-first command-line client for the org-mcp Emacs
server, written in Verus. Every function in `src/` carries a contract that
Verus proves, except a few small wrappers around serde_json and std
(`src/json_text.rs`, `src/debug.rs`) whose contracts are trusted.

## Layout

- `src/json.rs` — a JSON document held as plain values (`JsonValue`), its
  mathematical meaning (`Json`) and the builders the rest of the crate uses.
- `src/json_text.rs` — JSON text through serde_json: parsing, printing and
  `{:?}`; `src/debug.rs` — `{:?}` of a string.
- `src/cli.rs` — the parsed command line as plain values.
- `src/argv.rs` — the `--` sentinel form of launcher arguments.
- `src/uri.rs` — `org://` normalisation and the `outline` path check.
- `src/contract.rs` — the command registry behind `org schema`.
- `src/dispatch.rs` — the tool call each command makes, the failures it can
  report, and how a tool reply becomes the command's data.
- `src/route.rs` — what a command line leads to (a local answer, a usage
  error, or a server session) and which command spawns the server.
- `src/discovery.rs` — where the launcher is looked for in `$PATH`.
- `src/output.rs` — the success and error envelopes.
- `src/mcp/` — JSON-RPC requests and replies (`client.rs`), the line framing
  of the stdio transport (`transport.rs`) and the error type (`error.rs`).
- `app/` — the `org` binary: clap parsing, the server process and its pipes,
  file-system checks for discovery.
- `tests/` — tests of the library, including whole commands run against an
  in-process stand-in for the server (`tests/commands.rs`).

## Exit codes

| Code | Meaning |
|------|---------|
| 0 | success |
| 1 | tool error returned by org-mcp |
| 2 | usage / argument error |
| 3 | transport / protocol failure |
| 4 | server spawn / discovery failure |
