//! MCP server: the audit log, the tool parameters, and the decisions
//! the tools make before any request is sent.

pub mod audit;
pub mod handlers;
pub mod params;
