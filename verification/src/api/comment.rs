//! `/v1/comments` request bodies and paths (CLI only, not exposed over MCP).

use vstd::prelude::*;

use crate::api::query::{
    encode_query, opt_number, opt_pair, opt_text, pair_views, push_opt_number, push_opt_text,
    query_of,
};
use crate::text::{concat, owned};
use crate::types::RichText;
use crate::validation::{BlockId, PageId};

verus! {

/// Options of `comments list`: the block and the pagination.
#[derive(Debug)]
pub struct ListCommentsOptions {
    pub block_id: BlockId,
    pub page_size: Option<u8>,
    pub start_cursor: Option<String>,
}

/// Parent of a top-level comment on a page.
#[derive(Debug)]
pub struct CommentParent {
    pub page_id: PageId,
}

/// Body of `POST /v1/comments`: either `parent` (top-level on a page)
/// or `discussion_id` (reply), never both.
#[derive(Debug)]
pub struct CreateCommentRequest {
    pub parent: Option<CommentParent>,
    pub discussion_id: Option<String>,
    pub rich_text: Vec<RichText>,
}

pub open spec fn opt_string(s: Option<String>) -> Option<Seq<char>> {
    match s {
        Some(t) => Some(t@),
        None => None,
    }
}

/// `/comments?block_id=…[&page_size=…][&start_cursor=…]`.
pub open spec fn comments_path_spec(block_id: Seq<char>, page_size: Option<u8>, start_cursor: Option<Seq<char>>) -> Seq<char> {
    "/comments?"@ + query_of(
        seq![("block_id"@, block_id)] + opt_pair("page_size"@, opt_number(page_size)) + opt_pair(
            "start_cursor"@,
            start_cursor,
        ),
    )
}

/// Path of `GET /v1/comments` for the given options.
pub fn comments_path(options: &ListCommentsOptions) -> (p: String)
    ensures
        p@ == comments_path_spec(options.block_id@, options.page_size, opt_string(options.start_cursor)),
{
    let mut pairs: Vec<(String, String)> = Vec::new();
    pairs.push((owned("block_id"), owned(options.block_id.as_str())));
    assert(pair_views(pairs@) =~= seq![("block_id"@, options.block_id@)]);
    push_opt_number(&mut pairs, "page_size", options.page_size);
    let cursor: Option<&str> = match &options.start_cursor {
        Some(c) => Some(c.as_str()),
        None => None,
    };
    assert(opt_text(cursor) == opt_string(options.start_cursor));
    push_opt_text(&mut pairs, "start_cursor", cursor);
    let q = encode_query(&pairs);
    concat("/comments?", q.as_str())
}

} // verus!
