//! MCP tool parameters. Kept flat: ids are plain strings (checked when
//! the tool runs), and Notion-shaped fields (filters, property maps,
//! sorts, block bodies) stay as JSON.

use vstd::prelude::*;

verus! {

// === Read-only params =====================================================

#[derive(Debug)]
pub struct GetPageParams {
    /// Notion page id (32 hex digits, optionally dashed) or a Notion URL.
    pub page_id: String,
}

#[derive(Debug)]
pub struct GetDataSourceParams {
    /// Notion data source id.
    pub data_source_id: String,
}

#[derive(Debug)]
pub struct QueryDataSourceParams {
    pub data_source_id: String,
    /// Notion filter expression.
    pub filter: Option<serde_json::Value>,
    /// Array of sort criteria.
    pub sorts: Option<serde_json::Value>,
    pub start_cursor: Option<String>,
    /// Results per page, 1-100.
    pub page_size: Option<u8>,
}

#[derive(Debug)]
pub struct SearchParams {
    pub query: Option<String>,
    pub filter: Option<serde_json::Value>,
    pub sort: Option<serde_json::Value>,
    pub start_cursor: Option<String>,
    pub page_size: Option<u8>,
}

#[derive(Debug)]
pub struct GetBlockParams {
    pub block_id: String,
}

#[derive(Debug)]
pub struct ListBlockChildrenParams {
    pub block_id: String,
    pub start_cursor: Option<String>,
    pub page_size: Option<u8>,
}

// === Write params =========================================================

#[derive(Debug)]
pub struct CreatePageParams {
    /// Parent data source (rows of a database); exclusive with `parent_page_id`.
    pub parent_data_source_id: Option<String>,
    /// Parent page; exclusive with `parent_data_source_id`.
    pub parent_page_id: Option<String>,
    /// Property values keyed by name.
    pub properties: serde_json::Value,
    /// Block bodies for the page body.
    pub children: Option<serde_json::Value>,
}

#[derive(Debug)]
pub struct UpdatePageParams {
    pub page_id: String,
    pub properties: Option<serde_json::Value>,
    pub archived: Option<bool>,
    pub in_trash: Option<bool>,
}

#[derive(Debug)]
pub struct CreateDataSourceParams {
    /// The database container the data source lives in.
    pub parent_database_id: String,
    /// Plain-text title.
    pub title: Option<String>,
    /// Property schemas.
    pub properties: serde_json::Value,
}

#[derive(Debug)]
pub struct AppendBlockChildrenParams {
    pub block_id: String,
    pub children: serde_json::Value,
    /// Sibling to append after.
    pub after: Option<String>,
}

#[derive(Debug)]
pub struct UpdateBlockParams {
    pub block_id: String,
    pub body: Option<serde_json::Value>,
    pub archived: Option<bool>,
    pub in_trash: Option<bool>,
}

#[derive(Debug)]
pub struct DeleteBlockParams {
    pub block_id: String,
}

// === Admin params =========================================================

#[derive(Debug)]
pub struct DbCreateParams {
    pub parent_page_id: String,
    pub title: String,
    /// Initial property schemas; one must be the title.
    pub properties: serde_json::Value,
    pub icon: Option<String>,
    pub cover: Option<String>,
    pub is_inline: Option<bool>,
}

#[derive(Debug)]
pub struct DsUpdateParams {
    pub data_source_id: String,
    /// One of `add_property`, `remove_property`, `rename_property`,
    /// `add_option`, `bulk`.
    pub action: String,
    pub name: Option<String>,
    pub new_name: Option<String>,
    pub schema: Option<serde_json::Value>,
    /// Must be `true` for `remove_property`.
    pub confirm: Option<bool>,
    pub property: Option<String>,
    /// `select` (default), `multi_select` or `status`.
    pub kind: Option<String>,
    pub option: Option<serde_json::Value>,
    pub body: Option<serde_json::Value>,
}

#[derive(Debug)]
pub struct PageMoveParams {
    pub page_id: String,
    pub target_page_id: Option<String>,
    pub target_data_source_id: Option<String>,
}

} // verus!
