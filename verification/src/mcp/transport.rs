//! Rules of the newline-delimited JSON-RPC framing over the server's stdio:
//! one document per line in both directions. The pipes and the reader
//! thread are driven by the caller.
use vstd::prelude::*;
use crate::debug::{str_debug, str_debug_exec};
use crate::json::{model, JsonValue};
use crate::json_text::{compact_text, json_compact, json_error_text, json_of_text, parse_json};
use crate::mcp::error::McpError;
use crate::text::{decimal, decimal_u64};

verus! {

/// The per-read timeout in force for a requested one: zero seconds, like
/// none, means waiting without limit.
pub fn effective_timeout(requested: Option<u64>) -> (r: Option<u64>)
    ensures
        r == match requested {
            Some(0) => None,
            other => other,
        },
{
    match requested {
        Some(0) => None,
        other => other,
    }
}

/// Checks the server command line before spawning: it must name a program.
pub fn check_spawn_argv(argv: &Vec<String>) -> (r: Result<(), McpError>)
    ensures
        r is Ok <==> argv@.len() > 0,
        r matches Err(e) ==> (e matches McpError::Spawn(m) && m@
            == "server command must not be empty"@),
{
    if argv.len() == 0 {
        return Err(McpError::Spawn("server command must not be empty".to_owned()));
    }
    Ok(())
}

/// The line sent for one serialized message.
pub fn frame_line(text: String) -> (r: String)
    ensures
        r@ == text@ + seq!['\n'],
{
    let mut line = text;
    line.append("\n");
    proof {
        reveal_strlit("\n");
    }
    line
}

/// The error for a server that closed its stdout before answering.
pub fn eof_error() -> (r: McpError)
    ensures
        r matches McpError::Transport(m) && m@
            == "server closed stdout (EOF) without sending a response"@,
{
    McpError::Transport("server closed stdout (EOF) without sending a response".to_owned())
}

/// The error for a reply that did not come within `secs` seconds.
pub fn timeout_error(secs: u64) -> (r: McpError)
    ensures
        r matches McpError::Transport(m) && m@ == "no response from server within "@ + decimal(
            secs as nat,
        ) + "s (timeout)"@,
{
    let mut m = "no response from server within ".to_owned();
    m.append(decimal_u64(secs).as_str());
    m.append("s (timeout)");
    McpError::Transport(m)
}

/// Whether a character is white space, as `char::is_whitespace` has it.
pub open spec fn is_white(c: char) -> bool {
    ('\u{9}' <= c <= '\u{d}') || c == ' ' || c == '\u{85}' || c == '\u{a0}' || c == '\u{1680}'
        || ('\u{2000}' <= c <= '\u{200a}') || c == '\u{2028}' || c == '\u{2029}' || c
        == '\u{202f}' || c == '\u{205f}' || c == '\u{3000}'
}

fn is_white_exec(c: char) -> (r: bool)
    ensures
        r == is_white(c),
{
    ('\u{9}' <= c && c <= '\u{d}') || c == ' ' || c == '\u{85}' || c == '\u{a0}' || c == '\u{1680}'
        || ('\u{2000}' <= c && c <= '\u{200a}') || c == '\u{2028}' || c == '\u{2029}' || c
        == '\u{202f}' || c == '\u{205f}' || c == '\u{3000}'
}

/// A text without its leading white space.
pub open spec fn trim_front(s: Seq<char>) -> Seq<char>
    decreases s.len(),
{
    if s.len() > 0 && is_white(s[0]) {
        trim_front(s.drop_first())
    } else {
        s
    }
}

/// A text without its trailing white space.
pub open spec fn trim_back(s: Seq<char>) -> Seq<char>
    decreases s.len(),
{
    if s.len() > 0 && is_white(s.last()) {
        trim_back(s.drop_last())
    } else {
        s
    }
}

/// A line with white space removed at both ends, as `str::trim` does.
pub open spec fn trimmed(s: Seq<char>) -> Seq<char> {
    trim_back(trim_front(s))
}

/// Removes white space at both ends of a line.
pub fn trim(s: &str) -> (r: String)
    ensures
        r@ == trimmed(s@),
{
    let n = s.unicode_len();
    let mut lo: usize = 0;
    assert(s@.skip(0) =~= s@);
    while lo < n && is_white_exec(s.get_char(lo))
        invariant
            n == s@.len(),
            lo <= n,
            trim_front(s@) == trim_front(s@.skip(lo as int)),
        decreases n - lo,
    {
        assert(s@.skip(lo as int).drop_first() =~= s@.skip(lo + 1));
        lo = lo + 1;
    }
    assert(trim_front(s@) == s@.skip(lo as int));
    let mut hi: usize = n;
    assert(s@.subrange(lo as int, n as int) =~= s@.skip(lo as int));
    while hi > lo && is_white_exec(s.get_char(hi - 1))
        invariant
            n == s@.len(),
            lo <= hi <= n,
            trimmed(s@) == trim_back(s@.subrange(lo as int, hi as int)),
        decreases hi,
    {
        assert(s@.subrange(lo as int, hi as int).drop_last() =~= s@.subrange(lo as int, hi - 1));
        hi = hi - 1;
    }
    s.substring_char(lo, hi).to_owned()
}

/// Reads one received line: an empty read means the server closed its
/// stdout; otherwise the line without surrounding white space is the text of
/// one message.
pub fn received_text(line: &str) -> (r: Result<String, McpError>)
    ensures
        line@.len() == 0 ==> (r matches Err(McpError::Transport(m)) && m@
            == "server closed stdout (EOF) without sending a response"@),
        line@.len() > 0 ==> (r matches Ok(t) && t@ == trimmed(line@)),
{
    if line.unicode_len() == 0 {
        return Err(eof_error());
    }
    Ok(trim(line))
}



/// The line sent for a message: its single-line JSON text and a line feed.
pub fn message_line(msg: &JsonValue) -> (r: String)
    ensures
        r@ == json_compact(model(*msg)) + seq!['\n'],
        r@.last() == '\n' && !r@.drop_last().contains('\n'),
{
    let text = compact_text(msg);
    let ghost t = text@;
    let r = frame_line(text);
    assert(r@.drop_last() =~= t);
    r
}

/// The message for a received text that is not JSON: serde_json's message
/// and the text, quoted.
pub open spec fn parse_error_message(error: Seq<char>, quoted: Seq<char>) -> Seq<char> {
    "JSON parse error: "@ + error + " (line: "@ + quoted + ")"@
}

/// The error for a received text that is not JSON, given serde_json's
/// message and the text as `{:?}` shows it.
pub fn parse_error(error: &str, quoted: &str) -> (r: McpError)
    ensures
        r matches McpError::Transport(m) && m@ == parse_error_message(error@, quoted@),
{
    let mut m = "JSON parse error: ".to_owned();
    m.append(error);
    m.append(" (line: ");
    m.append(quoted);
    m.append(")");
    McpError::Transport(m)
}

/// Reads one received line as a message: an empty read means the server
/// closed its stdout; otherwise the line without surrounding white space is
/// read as JSON, and a text that is not JSON is a transport error.
pub fn read_reply(line: &str) -> (r: Result<JsonValue, McpError>)
    ensures
        line@.len() == 0 ==> (r matches Err(McpError::Transport(m)) && m@
            == "server closed stdout (EOF) without sending a response"@),
        line@.len() > 0 ==> match json_of_text(trimmed(line@)) {
            Some(j) => (r matches Ok(v) && model(v) == j),
            None => (r matches Err(McpError::Transport(m)) && m@ == parse_error_message(
                json_error_text(trimmed(line@)),
                str_debug(trimmed(line@)),
            )),
        },
{
    let text = received_text(line)?;
    match parse_json(text.as_str()) {
        Ok(v) => Ok(v),
        Err(e) => Err(parse_error(e.as_str(), str_debug_exec(text.as_str()).as_str())),
    }
}

} // verus!
