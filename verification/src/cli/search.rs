//! `notion-cli search` arguments, and the request they make.

use vstd::prelude::*;

use crate::api::search::SearchRequest;
use crate::cli::error::CliError;
use crate::text::concat;

verus! {

#[derive(Debug)]
pub struct SearchArgs {
    /// Query string (absent: everything the integration can access).
    pub query: Option<String>,
    /// Filter JSON.
    pub filter: Option<String>,
    /// Sort JSON.
    pub sort: Option<String>,
    pub start_cursor: Option<String>,
    /// Results per page (1-100).
    pub page_size: Option<u8>,
}

pub open spec fn clone_of(a: Option<String>, b: Option<String>) -> bool {
    match (a, b) {
        (Some(x), Some(y)) => x@ == y@,
        (None, None) => true,
        _ => false,
    }
}

fn copy_opt(s: &Option<String>) -> (r: Option<String>)
    ensures
        clone_of(r, *s),
{
    match s {
        Some(t) => Some(t.clone()),
        None => None,
    }
}

/// The search body: the `--filter` and `--sort` JSON arrive parsed
/// (`None` when absent); a filter error is reported before a sort error.
pub fn search_request(
    args: &SearchArgs,
    filter: Option<Result<serde_json::Value, String>>,
    sort: Option<Result<serde_json::Value, String>>,
) -> (r: Result<SearchRequest, CliError>)
    ensures
        filter matches Some(Err(e)) ==> (r matches Err(CliError::Validation(m)) && m@
            == "--filter: "@ + e@),
        sort matches Some(Err(e)) ==> (!(filter matches Some(Err(_))) ==> (r matches Err(
            CliError::Validation(m),
        ) && m@ == "--sort: "@ + e@)),
        !(filter matches Some(Err(_))) && !(sort matches Some(Err(_))) ==> (r matches Ok(req) && {
            &&& clone_of(req.query, args.query)
            &&& clone_of(req.start_cursor, args.start_cursor)
            &&& req.page_size == args.page_size
            &&& (filter matches Some(Ok(f)) ==> req.filter == Some(f))
            &&& (filter is None ==> req.filter is None)
            &&& (sort matches Some(Ok(s)) ==> req.sort == Some(s))
            &&& (sort is None ==> req.sort is None)
        }),
{
    let filter_val = match filter {
        None => None,
        Some(Ok(f)) => Some(f),
        Some(Err(e)) => {
            return Err(CliError::Validation(concat("--filter: ", e.as_str())));
        },
    };
    let sort_val = match sort {
        None => None,
        Some(Ok(s)) => Some(s),
        Some(Err(e)) => {
            return Err(CliError::Validation(concat("--sort: ", e.as_str())));
        },
    };
    Ok(
        SearchRequest {
            query: copy_opt(&args.query),
            filter: filter_val,
            sort: sort_val,
            start_cursor: copy_opt(&args.start_cursor),
            page_size: args.page_size,
        },
    )
}

} // verus!
