use org_cli::cli::{Cli, Commands, ToolsCmd};
use org_cli::argv::split_sentinel;

const SUBCMDS: &[&str] = &[
    "read",
    "read-headline",
    "outline",
    "query",
    "todo",
    "edit",
    "clock",
    "config",
    "schema",
    "tools",
];

fn s(args: &[&str]) -> Vec<String> {
    args.iter().map(|s| s.to_string()).collect()
}

#[test]
fn test_no_sentinel_returns_unchanged() {
    let argv = s(&["org", "--server", "foo", "tools", "list"]);
    let (cleaned, extra) = split_sentinel(argv.clone(), SUBCMDS);
    assert_eq!(cleaned, argv);
    assert!(extra.is_empty(), "no sentinel ⇒ no extra args");
}

#[test]
fn test_sentinel_extracts_launcher_args() {
    let argv = s(&[
        "org", "--server", "foo", "--", "--bar", "--baz", "tools", "list",
    ]);
    let (cleaned, extra) = split_sentinel(argv, SUBCMDS);
    assert_eq!(
        cleaned,
        s(&["org", "--server", "foo", "tools", "list"]),
        "cleaned argv must drop -- and its trailing args"
    );
    assert_eq!(extra, s(&["--bar", "--baz"]));
}

#[test]
fn test_sentinel_skips_value_of_known_flags() {
    let argv = s(&[
        "org",
        "--server",
        "foo",
        "--server-arg",
        "--",
        "tools",
        "list",
    ]);
    let (cleaned, extra) = split_sentinel(argv.clone(), SUBCMDS);
    assert_eq!(cleaned, argv, "value-form `--` must NOT be treated as sentinel");
    assert!(extra.is_empty());
}

#[test]
fn test_sentinel_with_intermixed_compact_flag() {
    let argv = s(&[
        "org",
        "--compact",
        "--server",
        "foo",
        "--",
        "--socket",
        "/tmp/s",
        "tools",
        "list",
    ]);
    let (cleaned, extra) = split_sentinel(argv, SUBCMDS);
    assert_eq!(
        cleaned,
        s(&["org", "--compact", "--server", "foo", "tools", "list"])
    );
    assert_eq!(extra, s(&["--socket", "/tmp/s"]));
}

#[test]
fn test_sentinel_without_subcommand_takes_remainder() {
    let argv = s(&["org", "--server", "foo", "--", "--bar"]);
    let (cleaned, extra) = split_sentinel(argv, SUBCMDS);
    assert_eq!(cleaned, s(&["org", "--server", "foo"]));
    assert_eq!(extra, s(&["--bar"]));
}

#[test]
fn test_sentinel_handles_timeout_value_flag() {
    let argv = s(&[
        "org",
        "--timeout",
        "5",
        "--server",
        "foo",
        "--",
        "--bar",
        "tools",
        "list",
    ]);
    let (cleaned, extra) = split_sentinel(argv, SUBCMDS);
    assert_eq!(
        cleaned,
        s(&[
            "org", "--timeout", "5", "--server", "foo", "tools", "list"
        ])
    );
    assert_eq!(extra, s(&["--bar"]));
}

#[test]
fn sentinel_split_keeps_every_other_token() {
    let argv = s(&["org", "--", "-a", "-b", "read", "x"]);
    let (cleaned, extra) = split_sentinel(argv.clone(), SUBCMDS);
    assert_eq!(cleaned.len() + extra.len() + 1, argv.len());
    assert_eq!(cleaned, s(&["org", "read", "x"]));
    assert_eq!(extra, s(&["-a", "-b"]));
}

#[test]
fn sentinel_with_nothing_after_it() {
    let (cleaned, extra) = split_sentinel(s(&["org", "--"]), SUBCMDS);
    assert_eq!(cleaned, s(&["org"]));
    assert!(extra.is_empty());
}

#[test]
fn empty_argv_unchanged() {
    let (cleaned, extra) = split_sentinel(Vec::new(), SUBCMDS);
    assert!(cleaned.is_empty());
    assert!(extra.is_empty());
}

#[test]
fn subcommand_list_matches_the_command_line() {
    assert_eq!(org_cli::cli::subcommands(), SUBCMDS.to_vec());
}

#[test]
fn sentinel_args_reach_the_server_like_server_args() {
    let base = |server_args: Vec<String>| Cli {
        server: Some("m".into()),
        server_args,
        compact: false,
        timeout: 30,
        command: Commands::Tools { cmd: ToolsCmd::List },
    };
    let (_, extra) = split_sentinel(s(&["org", "--server", "m", "--", "--extra=foo", "tools", "list"]), SUBCMDS);
    let with_sentinel = base(vec![]).with_launcher_args(extra);
    let with_flag = base(s(&["--extra=foo"]));
    assert_eq!(with_sentinel.server_argv().unwrap(), with_flag.server_argv().unwrap());
    assert_eq!(with_sentinel.server_argv().unwrap(), s(&["m", "--extra=foo"]));
}
