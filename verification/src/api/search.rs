//! `POST /v1/search` request body.

use vstd::prelude::*;

verus! {

/// Body of `POST /v1/search`; absent fields are left out of the JSON.
#[derive(Debug)]
pub struct SearchRequest {
    pub query: Option<String>,
    pub filter: Option<serde_json::Value>,
    pub sort: Option<serde_json::Value>,
    pub start_cursor: Option<String>,
    pub page_size: Option<u8>,
}

impl Default for SearchRequest {
    fn default() -> (r: Self)
        ensures
            r.query is None && r.filter is None && r.sort is None && r.start_cursor is None
                && r.page_size is None,
    {
        SearchRequest { query: None, filter: None, sort: None, start_cursor: None, page_size: None }
    }
}

} // verus!
