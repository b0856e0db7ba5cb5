//! Command-line surface: the parsed arguments and the decisions the
//! commands make before any request is sent.

pub mod block;
pub mod comment;
pub mod db;
pub mod ds;
pub mod error;
pub mod ids;
pub mod json_body;
pub mod mcp;
pub mod page;
pub mod schema;
pub mod search;
pub mod user;

use vstd::prelude::*;

use crate::cli::error::CliError;
use crate::output::OutputOptions;
use crate::text::owned;

verus! {

/// The parsed command line: global flags and the subcommand.
#[derive(Debug)]
pub struct Cli {
    /// Build and print the request; do not call Notion.
    pub check_request: bool,
    /// Skip the untrusted-source envelope in output.
    pub raw: bool,
    /// Pretty-print JSON output.
    pub pretty: bool,
    /// Notion integration token (defaults to `NOTION_TOKEN`).
    pub token: Option<String>,
    pub cmd: Command,
}

#[derive(Debug)]
pub enum Command {
    /// Database container operations.
    Db(db::DbCmd),
    /// Data source operations (schema and queries).
    Ds(ds::DsCmd),
    /// Page operations.
    Page(page::PageCmd),
    /// Block operations.
    Block(block::BlockCmd),
    /// Full-text search.
    Search(search::SearchArgs),
    /// Print the JSON Schema of an internal type.
    Schema(schema::SchemaArgs),
    /// User enumeration.
    Users(user::UsersCmd),
    /// Start an MCP stdio server.
    Mcp(mcp::McpArgs),
}

/// The message when no token was given.
pub open spec fn missing_token_message() -> Seq<char> {
    "missing NOTION_TOKEN (set env var or pass --token)"@
}

impl Cli {
    pub fn output_options(&self) -> (o: OutputOptions)
        ensures
            o.raw == self.raw,
            o.pretty == self.pretty,
    {
        OutputOptions { raw: self.raw, pretty: self.pretty }
    }

    /// The token a client is built with, or the configuration error
    /// when none was given.
    pub fn require_token(&self) -> (r: Result<&str, CliError>)
        ensures
            self.token matches Some(t) ==> (r matches Ok(s) && s@ == t@),
            self.token is None ==> (r matches Err(CliError::Config(m)) && m@
                == missing_token_message()),
    {
        match &self.token {
            Some(t) => Ok(t.as_str()),
            None => Err(CliError::Config(owned("missing NOTION_TOKEN (set env var or pass --token)"))),
        }
    }
}

} // verus!
