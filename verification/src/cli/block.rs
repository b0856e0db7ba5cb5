//! `notion-cli block *` — block CRUD arguments, and the request bodies
//! built from them.

use vstd::prelude::*;

use crate::api::block::{AppendBlockChildrenRequest, UpdateBlockRequest};
use crate::cli::error::CliError;
use crate::cli::ids::{block_id_arg, labelled};
use crate::text::concat;
use crate::validation::{url_or_id, BlockId};

verus! {

#[derive(Debug)]
pub enum BlockCmd {
    /// Retrieve a single block.
    Get { id: String },
    /// List a block's children (paginated).
    List { id: String, start_cursor: Option<String>, page_size: Option<u8> },
    /// Append children (a JSON array of block bodies) to a parent block.
    Append { id: String, children: String, after: Option<String> },
    /// Update a block's content or archive state.
    Update { id: String, body: Option<String>, archived: Option<bool>, in_trash: Option<bool> },
    /// Delete (archive) a block.
    Delete { id: String },
}

/// The target and body of `block append`: the block id, the parsed
/// `--children`, then the optional `--after` sibling.
pub fn append_request(
    id: &str,
    children: Result<Vec<serde_json::Value>, String>,
    after: Option<&str>,
) -> (r: Result<(BlockId, AppendBlockChildrenRequest), CliError>)
    ensures
        url_or_id(id@) is None ==> (r matches Err(CliError::Validation(m)) && m@ == labelled(
            "block id"@,
            id@,
        )),
        children matches Err(e) ==> (url_or_id(id@) is Some ==> (r matches Err(
            CliError::Validation(m),
        ) && m@ == "--children: "@ + e@)),
        after matches Some(a) ==> (url_or_id(id@) is Some && children is Ok && url_or_id(a@)
            is None ==> (r matches Err(CliError::Validation(m)) && m@ == labelled("--after"@, a@))),
        url_or_id(id@) is Some && children is Ok && !(after matches Some(a) && url_or_id(a@) is None)
            ==> r is Ok,
        r matches Ok((b, req)) ==> {
            &&& Some(b@) == url_or_id(id@)
            &&& (children matches Ok(cs) && req.children@ == cs@)
            &&& (after is None ==> req.after is None)
            &&& (after matches Some(a) ==> (req.after matches Some(x) && Some(x@) == url_or_id(
                a@,
            )))
        },
{
    let block = block_id_arg(id, "block id")?;
    let cs = match children {
        Ok(cs) => cs,
        Err(e) => {
            return Err(CliError::Validation(concat("--children: ", e.as_str())));
        },
    };
    let after_id = match after {
        Some(a) => Some(block_id_arg(a, "--after")?),
        None => None,
    };
    Ok((block, AppendBlockChildrenRequest { children: cs, after: after_id }))
}

/// The target and body of `block update` (the `--body` JSON arrives
/// parsed, `None` when absent).
pub fn update_request(
    id: &str,
    body: Option<Result<serde_json::Value, String>>,
    archived: Option<bool>,
    in_trash: Option<bool>,
) -> (r: Result<(BlockId, UpdateBlockRequest), CliError>)
    ensures
        url_or_id(id@) is None ==> (r matches Err(CliError::Validation(m)) && m@ == labelled(
            "block id"@,
            id@,
        )),
        body matches Some(Err(e)) ==> (url_or_id(id@) is Some ==> (r matches Err(
            CliError::Validation(m),
        ) && m@ == "--body: "@ + e@)),
        url_or_id(id@) is Some && !(body matches Some(Err(_))) ==> (r matches Ok((b, req)) && Some(
            b@,
        ) == url_or_id(id@) && req.archived == archived && req.in_trash == in_trash && (
        body matches Some(Ok(v)) ==> req.body == Some(v)) && (body is None ==> req.body is None)),
{
    let block = block_id_arg(id, "block id")?;
    let b = match body {
        None => None,
        Some(Ok(v)) => Some(v),
        Some(Err(e)) => {
            return Err(CliError::Validation(concat("--body: ", e.as_str())));
        },
    };
    Ok((block, UpdateBlockRequest { body: b, archived, in_trash }))
}

} // verus!
