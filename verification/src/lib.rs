//! Core logic of the `org` command-line client for the org-mcp server.
pub mod argv;
pub mod cli;
pub mod contract;
pub mod debug;
pub mod discovery;
pub mod dispatch;
pub mod json;
pub mod json_text;
pub mod laws;
pub mod mcp;
pub mod output;
pub mod route;
pub mod text;
pub mod uri;
