//! Agent-first Notion CLI and MCP server: the verified core.

pub mod api;
pub mod cache;
pub mod cli;
pub mod config;
pub mod error;
pub mod foreign;
pub mod mcp;
pub mod observability;
pub mod output;
pub mod text;
pub mod token_provider;
pub mod types;
pub mod validation;
