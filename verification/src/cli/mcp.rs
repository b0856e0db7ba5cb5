//! `notion-cli mcp` arguments, and the tier of tools they expose.

use vstd::prelude::*;

verus! {

#[derive(Debug)]
pub struct McpArgs {
    /// Expose the runtime write tools. Exclusive with `allow_admin`,
    /// which exposes them too.
    pub allow_write: bool,
    /// Expose the admin lifecycle tools on top of the write tools.
    pub allow_admin: bool,
    /// Append-only JSONL audit log for write operations.
    pub audit_log: Option<std::path::PathBuf>,
    /// Append-only JSONL audit log for admin operations.
    pub admin_log: Option<std::path::PathBuf>,
}

/// The tools an MCP server exposes.
#[derive(Debug, Clone, Copy, PartialEq, Eq, Structural)]
pub enum McpTier {
    ReadOnly,
    Write,
    Admin,
}

impl McpArgs {
    /// The tier the flags select: admin over write over read-only.
    pub fn tier(&self) -> (t: McpTier)
        ensures
            self.allow_admin ==> t == McpTier::Admin,
            !self.allow_admin && self.allow_write ==> t == McpTier::Write,
            !self.allow_admin && !self.allow_write ==> t == McpTier::ReadOnly,
    {
        if self.allow_admin {
            McpTier::Admin
        } else if self.allow_write {
            McpTier::Write
        } else {
            McpTier::ReadOnly
        }
    }
}

} // verus!
