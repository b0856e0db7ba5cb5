//! Notion API version pin, sent as `Notion-Version` on every request.

use vstd::prelude::*;

verus! {

pub const NOTION_API_VERSION: &'static str = "2026-03-11";

pub const NOTION_API_BASE: &'static str = "https://api.notion.com";

} // verus!
