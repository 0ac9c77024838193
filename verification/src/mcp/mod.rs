//! The MCP side of the client: errors, the JSON-RPC exchange and the stdio
//! framing rules.
pub mod client;
pub mod error;
pub mod transport;
