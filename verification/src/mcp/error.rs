//! MCP client errors and how each one is reported.
use vstd::prelude::*;
use crate::json::JsonValue;
use crate::text::{decimal_i64, decimal_int};

verus! {

/// A failure while talking to the MCP server.
#[derive(Debug)]
pub enum McpError {
    /// JSON-RPC error returned by the server (code, message, data).
    ToolError { code: i64, message: String, data: JsonValue },
    /// Transport-level failure (I/O, framing, JSON parse).
    Transport(String),
    /// The server process could not be spawned.
    Spawn(String),
    /// Protocol violation (unexpected response shape, missing field).
    Protocol(String),
}

/// The exit code of each error, as the command-line contract lists them.
pub open spec fn spec_exit_code(e: McpError) -> i32 {
    match e {
        McpError::ToolError { .. } => 1,
        McpError::Transport(_) => 3,
        McpError::Spawn(_) => 4,
        McpError::Protocol(_) => 3,
    }
}

/// The human-readable text of an error.
pub open spec fn spec_message(e: McpError) -> Seq<char> {
    match e {
        McpError::ToolError { code, message, .. } => "tool error "@ + decimal_int(code as int)
            + ": "@ + message@,
        McpError::Transport(m) => "transport error: "@ + m@,
        McpError::Spawn(m) => "spawn error: "@ + m@,
        McpError::Protocol(m) => "protocol error: "@ + m@,
    }
}

impl McpError {
    /// The CLI exit code: 1 for a tool error, 3 for transport and protocol
    /// failures, 4 for a spawn failure.
    pub fn exit_code(&self) -> (r: i32)
        ensures
            r == spec_exit_code(*self),
    {
        match self {
            McpError::ToolError { .. } => 1,
            McpError::Transport(_) => 3,
            McpError::Spawn(_) => 4,
            McpError::Protocol(_) => 3,
        }
    }

    /// The error kind reported in the envelope: `tool` for a tool error,
    /// `transport` for every other error.
    pub fn kind_str(&self) -> (r: &'static str)
        ensures
            self is ToolError ==> r@ == "tool"@,
            !(self is ToolError) ==> r@ == "transport"@,
    {
        match self {
            McpError::ToolError { .. } => "tool",
            McpError::Transport(_) | McpError::Spawn(_) | McpError::Protocol(_) => "transport",
        }
    }

    /// The JSON-RPC error code: the server's code for a tool error, -1 otherwise.
    pub fn rpc_code(&self) -> (r: i64)
        ensures
            match *self {
                McpError::ToolError { code, .. } => r == code,
                _ => r == -1,
            },
    {
        match self {
            McpError::ToolError { code, .. } => *code,
            _ => -1,
        }
    }

    /// The human-readable text of the error.
    pub fn message(&self) -> (r: String)
        ensures
            r@ == spec_message(*self),
    {
        match self {
            McpError::ToolError { code, message, .. } => {
                let mut s = "tool error ".to_owned();
                s.append(decimal_i64(*code).as_str());
                s.append(": ");
                s.append(message.as_str());
                s
            },
            McpError::Transport(m) => {
                let mut s = "transport error: ".to_owned();
                s.append(m.as_str());
                s
            },
            McpError::Spawn(m) => {
                let mut s = "spawn error: ".to_owned();
                s.append(m.as_str());
                s
            },
            McpError::Protocol(m) => {
                let mut s = "protocol error: ".to_owned();
                s.append(m.as_str());
                s
            },
        }
    }
}

/// Only a tool error exits with 1, and a spawn failure alone exits with 4;
/// every error exits with 1, 3 or 4.
pub proof fn lemma_exit_codes(e: McpError)
    ensures
        spec_exit_code(e) == 1 <==> e is ToolError,
        spec_exit_code(e) == 4 <==> e is Spawn,
        spec_exit_code(e) == 1 || spec_exit_code(e) == 3 || spec_exit_code(e) == 4,
{
}

} // verus!
