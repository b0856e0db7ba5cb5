//! `/v1/blocks/*` request bodies and paths.

use vstd::prelude::*;

use crate::api::query::{encode_query, encoded_pair, opt_number, opt_pair, opt_text, push_opt_number, push_opt_text, query_of, pair_views};
use crate::text::{concat, has_sub, lemma_has_sub_extend, lemma_has_sub_nonempty, lemma_join_has_part, owned};
use crate::foreign::form_bytes;
use crate::validation::BlockId;

verus! {

/// Body of `PATCH /v1/blocks/{id}/children` (append).
#[derive(Debug)]
pub struct AppendBlockChildrenRequest {
    /// Block bodies, as sent to Notion.
    pub children: Vec<serde_json::Value>,
    /// Sibling to append after; `None` appends at the end.
    pub after: Option<BlockId>,
}

impl AppendBlockChildrenRequest {
    pub fn new(children: Vec<serde_json::Value>) -> (r: Self)
        ensures
            r.children == children,
            r.after is None,
    {
        AppendBlockChildrenRequest { children, after: None }
    }
}

/// Body of `PATCH /v1/blocks/{id}` (update content or archive state).
#[derive(Debug)]
pub struct UpdateBlockRequest {
    pub body: Option<serde_json::Value>,
    pub archived: Option<bool>,
    pub in_trash: Option<bool>,
}

impl Default for UpdateBlockRequest {
    fn default() -> (r: Self)
        ensures
            r.body is None && r.archived is None && r.in_trash is None,
    {
        UpdateBlockRequest { body: None, archived: None, in_trash: None }
    }
}

/// `/blocks/{id}`.
pub open spec fn block_path_spec(id: Seq<char>) -> Seq<char> {
    "/blocks/"@ + id
}

pub fn block_path(id: &BlockId) -> (p: String)
    ensures
        p@ == block_path_spec(id@),
{
    concat("/blocks/", id.as_str())
}

/// The query of a children listing: `start_cursor`, then `page_size`.
pub open spec fn children_query(start_cursor: Option<Seq<char>>, page_size: Option<u8>) -> Seq<char> {
    query_of(opt_pair("start_cursor"@, start_cursor) + opt_pair("page_size"@, opt_number(page_size)))
}

/// `/blocks/{id}/children`, with `?query` only when the query is not empty.
pub open spec fn children_path_spec(id: Seq<char>, start_cursor: Option<Seq<char>>, page_size: Option<u8>) -> Seq<char> {
    let q = children_query(start_cursor, page_size);
    if q.len() == 0 {
        "/blocks/"@ + id + "/children"@
    } else {
        "/blocks/"@ + id + "/children"@ + "?"@ + q
    }
}

/// A children listing carries its cursor whenever one is given,
/// whatever the page size: the path holds the form-encoded pair
/// `start_cursor=<cursor>` after its `?`.
pub proof fn law_children_path_carries_cursor(id: Seq<char>, cursor: Seq<char>, page_size: Option<u8>)
    ensures
        has_sub(children_query(Some(cursor), page_size), encoded_pair("start_cursor"@, cursor)),
        has_sub(
            children_path_spec(id, Some(cursor), page_size),
            "?"@ + children_query(Some(cursor), page_size),
        ),
{
    let pairs = opt_pair("start_cursor"@, Some(cursor)) + opt_pair("page_size"@, opt_number(page_size));
    let parts = pairs.map_values(|p: (Seq<char>, Seq<char>)| encoded_pair(p.0, p.1));
    assert(pairs[0] == ("start_cursor"@, cursor));
    lemma_join_has_part(parts, "&"@, 0);
    let q = children_query(Some(cursor), page_size);
    let e = encoded_pair("start_cursor"@, cursor);
    assert(e.len() > 0) by {
        assert(e =~= form_bytes(vstd::utf8::encode_utf8("start_cursor"@)) + "="@ + form_bytes(
            vstd::utf8::encode_utf8(cursor),
        ));
        reveal_strlit("=");
    }
    lemma_has_sub_nonempty(q, e);
    let base = "/blocks/"@ + id + "/children"@;
    crate::text::lemma_has_sub_self("?"@ + q);
    lemma_has_sub_extend("?"@ + q, base, "?"@ + q);
    assert(children_path_spec(id, Some(cursor), page_size) =~= base + ("?"@ + q));
}

/// Path of `GET /v1/blocks/{id}/children` with its pagination query.
pub fn block_children_path(id: &BlockId, start_cursor: Option<&str>, page_size: Option<u8>) -> (p: String)
    ensures
        p@ == children_path_spec(id@, opt_text(start_cursor), page_size),
{
    let mut pairs: Vec<(String, String)> = Vec::new();
    assert(pair_views(pairs@) =~= Seq::empty());
    push_opt_text(&mut pairs, "start_cursor", start_cursor);
    push_opt_number(&mut pairs, "page_size", page_size);
    let q = encode_query(&pairs);
    let mut p = concat("/blocks/", id.as_str());
    p.append("/children");
    assert(pair_views(pairs@) =~= opt_pair("start_cursor"@, opt_text(start_cursor)) + opt_pair("page_size"@, opt_number(page_size)));
    if q.as_str().unicode_len() > 0 {
        p.append("?");
        p.append(q.as_str());
    }
    p
}

} // verus!
