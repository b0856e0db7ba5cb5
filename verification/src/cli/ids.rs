//! Identifier arguments: parsed, or refused with a labelled message.

use vstd::prelude::*;

use crate::cli::error::CliError;
use crate::text::concat;
use crate::validation::{
    id_error_message, url_or_id, BlockId, DataSourceId, DatabaseId, PageId,
};

verus! {

/// `"<label>: <reason>"`, the message of a refused identifier.
pub open spec fn labelled(label: Seq<char>, s: Seq<char>) -> Seq<char> {
    label + ": "@ + id_error_message(s)
}

fn label_error(label: &str, e: crate::error::IdError, ghost_s: Ghost<Seq<char>>) -> (c: CliError)
    requires
        e.message_spec() == id_error_message(ghost_s@),
    ensures
        c matches CliError::Validation(m) && m@ == labelled(label@, ghost_s@),
{
    let m = e.message();
    let mut r = concat(label, ": ");
    r.append(m.as_str());
    CliError::Validation(r)
}

/// A page id (or URL) argument.
pub fn page_id_arg(s: &str, label: &str) -> (r: Result<PageId, CliError>)
    ensures
        match r {
            Ok(id) => url_or_id(s@) == Some(id@),
            Err(e) => url_or_id(s@) is None && (e matches CliError::Validation(m) && m@ == labelled(
                label@,
                s@,
            )),
        },
{
    match PageId::from_url_or_id(s) {
        Ok(id) => Ok(id),
        Err(e) => Err(label_error(label, e, Ghost(s@))),
    }
}

/// A data source id (or URL) argument.
pub fn data_source_id_arg(s: &str, label: &str) -> (r: Result<DataSourceId, CliError>)
    ensures
        match r {
            Ok(id) => url_or_id(s@) == Some(id@),
            Err(e) => url_or_id(s@) is None && (e matches CliError::Validation(m) && m@ == labelled(
                label@,
                s@,
            )),
        },
{
    match DataSourceId::from_url_or_id(s) {
        Ok(id) => Ok(id),
        Err(e) => Err(label_error(label, e, Ghost(s@))),
    }
}

/// A database id (or URL) argument.
pub fn database_id_arg(s: &str, label: &str) -> (r: Result<DatabaseId, CliError>)
    ensures
        match r {
            Ok(id) => url_or_id(s@) == Some(id@),
            Err(e) => url_or_id(s@) is None && (e matches CliError::Validation(m) && m@ == labelled(
                label@,
                s@,
            )),
        },
{
    match DatabaseId::from_url_or_id(s) {
        Ok(id) => Ok(id),
        Err(e) => Err(label_error(label, e, Ghost(s@))),
    }
}

/// A block id (or URL) argument.
pub fn block_id_arg(s: &str, label: &str) -> (r: Result<BlockId, CliError>)
    ensures
        match r {
            Ok(id) => url_or_id(s@) == Some(id@),
            Err(e) => url_or_id(s@) is None && (e matches CliError::Validation(m) && m@ == labelled(
                label@,
                s@,
            )),
        },
{
    match BlockId::from_url_or_id(s) {
        Ok(id) => Ok(id),
        Err(e) => Err(label_error(label, e, Ghost(s@))),
    }
}

} // verus!
