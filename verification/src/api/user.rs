//! `/v1/users/*` paths (CLI only, not exposed over MCP).

use vstd::prelude::*;

use crate::api::comment::opt_string;
use crate::api::query::{
    encode_query, encoded_pair, opt_number, opt_pair, opt_text, pair_views, push_opt_number,
    push_opt_text, query_of,
};
use crate::text::{concat, has_sub, lemma_has_sub_extend, lemma_join_has_part};
use crate::validation::UserId;

verus! {

/// Pagination of `users list`. Bot/person filtering happens client-side.
#[derive(Debug, Default)]
pub struct ListUsersOptions {
    /// Results per page, 1-100.
    pub page_size: Option<u8>,
    /// Cursor from a previous response's `next_cursor`.
    pub start_cursor: Option<String>,
}

/// `/users?` followed by the query. The `?` is written even when the
/// query is empty, as the URL query builder leaves it.
pub open spec fn users_path_spec(page_size: Option<u8>, start_cursor: Option<Seq<char>>) -> Seq<char> {
    "/users?"@ + query_of(
        opt_pair("page_size"@, opt_number(page_size)) + opt_pair("start_cursor"@, start_cursor),
    )
}

/// Path of `GET /v1/users` (one page).
pub fn users_path(options: &ListUsersOptions) -> (p: String)
    ensures
        p@ == users_path_spec(options.page_size, opt_string(options.start_cursor)),
{
    let mut pairs: Vec<(String, String)> = Vec::new();
    assert(pair_views(pairs@) =~= Seq::empty());
    push_opt_number(&mut pairs, "page_size", options.page_size);
    let cursor: Option<&str> = match &options.start_cursor {
        Some(c) => Some(c.as_str()),
        None => None,
    };
    assert(opt_text(cursor) == opt_string(options.start_cursor));
    push_opt_text(&mut pairs, "start_cursor", cursor);
    assert(pair_views(pairs@) =~= opt_pair("page_size"@, opt_number(options.page_size)) + opt_pair(
        "start_cursor"@,
        opt_string(options.start_cursor),
    ));
    let q = encode_query(&pairs);
    concat("/users?", q.as_str())
}

/// A users page carries its cursor: whatever the page size, the path
/// of a listing from a cursor holds the form-encoded pair
/// `start_cursor=<cursor>`, so a fetch from the next cursor asks for
/// the next page.
pub proof fn law_users_path_carries_cursor(page_size: Option<u8>, cursor: Seq<char>)
    ensures
        has_sub(users_path_spec(page_size, Some(cursor)), encoded_pair("start_cursor"@, cursor)),
{
    let pairs = opt_pair("page_size"@, opt_number(page_size)) + opt_pair(
        "start_cursor"@,
        Some(cursor),
    );
    let parts = pairs.map_values(|p: (Seq<char>, Seq<char>)| encoded_pair(p.0, p.1));
    let last = pairs.len() - 1;
    assert(pairs[last] == ("start_cursor"@, cursor));
    lemma_join_has_part(parts, "&"@, last);
    lemma_has_sub_extend(query_of(pairs), "/users?"@, encoded_pair("start_cursor"@, cursor));
}

/// `/users/{id}`.
pub fn user_path(id: &UserId) -> (p: String)
    ensures
        p@ == "/users/"@ + id@,
{
    concat("/users/", id.as_str())
}

} // verus!
