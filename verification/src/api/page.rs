//! `/v1/pages/*` request bodies and paths.

use vstd::prelude::*;

use crate::text::concat;
use crate::types::{Cover, Icon};
use crate::validation::{DataSourceId, PageId};

verus! {

/// Parent of a new page: a data source (rows of a database) or a page.
#[derive(Debug)]
pub enum PageParent {
    DataSource { data_source_id: DataSourceId },
    Page { page_id: PageId },
}

/// Body of `POST /v1/pages`.
///
/// Property values are passed through as JSON, keyed by property name;
/// `children` optionally gives the page body at creation.
#[derive(Debug)]
pub struct CreatePageRequest {
    pub parent: PageParent,
    pub properties: Vec<(String, serde_json::Value)>,
    pub children: Vec<serde_json::Value>,
    pub icon: Option<Icon>,
    pub cover: Option<Cover>,
}

/// Body of `PATCH /v1/pages/{id}`.
///
/// `icon` and `cover` are tristate: `None` leaves the field alone,
/// `Some(None)` clears it, `Some(Some(v))` sets it.
#[derive(Debug)]
pub struct UpdatePageRequest {
    pub properties: Vec<(String, serde_json::Value)>,
    pub archived: Option<bool>,
    pub in_trash: Option<bool>,
    pub icon: Option<Option<Icon>>,
    pub cover: Option<Option<Cover>>,
}

impl Default for UpdatePageRequest {
    fn default() -> (r: Self)
        ensures
            r.properties@.len() == 0,
            r.archived is None,
            r.in_trash is None,
            r.icon is None,
            r.cover is None,
    {
        UpdatePageRequest {
            properties: Vec::new(),
            archived: None,
            in_trash: None,
            icon: None,
            cover: None,
        }
    }
}

/// The body of `page archive`: only `in_trash: true`.
pub fn archive_request() -> (r: UpdatePageRequest)
    ensures
        r.properties@.len() == 0,
        r.archived is None,
        r.in_trash == Some(true),
        r.icon is None,
        r.cover is None,
{
    UpdatePageRequest {
        properties: Vec::new(),
        archived: None,
        in_trash: Some(true),
        icon: None,
        cover: None,
    }
}

/// Where `page move` sends a page.
#[derive(Debug)]
pub enum MoveTarget {
    ToPage(PageId),
    ToDataSource(DataSourceId),
}

/// The `parent` object of the move request body.
#[derive(Debug)]
pub enum ParentForMove {
    Page { page_id: PageId },
    DataSource { data_source_id: DataSourceId },
}

impl From<MoveTarget> for ParentForMove {
    fn from(t: MoveTarget) -> (r: Self) {
        match t {
            MoveTarget::ToPage(id) => ParentForMove::Page { page_id: id },
            MoveTarget::ToDataSource(id) => ParentForMove::DataSource { data_source_id: id },
        }
    }
}

impl vstd::std_specs::convert::FromSpecImpl<MoveTarget> for ParentForMove {
    open spec fn obeys_from_spec() -> bool {
        true
    }

    open spec fn from_spec(t: MoveTarget) -> ParentForMove {
        match t {
            MoveTarget::ToPage(id) => ParentForMove::Page { page_id: id },
            MoveTarget::ToDataSource(id) => ParentForMove::DataSource { data_source_id: id },
        }
    }
}

/// Body of `POST /v1/pages/{id}/move`.
#[derive(Debug)]
pub struct MovePageRequest {
    pub parent: ParentForMove,
}

impl MovePageRequest {
    /// The move body for a target.
    pub fn to(target: MoveTarget) -> (r: MovePageRequest)
        ensures
            r == move_body(target),
    {
        MovePageRequest { parent: ParentForMove::from(target) }
    }

    /// Back from a body to the target it encodes.
    pub fn target(self) -> (t: MoveTarget)
        ensures
            t == move_body_target(self),
    {
        match self.parent {
            ParentForMove::Page { page_id } => MoveTarget::ToPage(page_id),
            ParentForMove::DataSource { data_source_id } => MoveTarget::ToDataSource(data_source_id),
        }
    }
}

/// The body of a move is the inverse of its target: building the body
/// for a target and reading the target back gives the target.
pub proof fn law_move_roundtrip(t: MoveTarget)
    ensures
        move_body_target(move_body(t)) == t,
{
}

/// The body `MovePageRequest::to` builds.
pub open spec fn move_body(t: MoveTarget) -> MovePageRequest {
    match t {
        MoveTarget::ToPage(id) => MovePageRequest { parent: ParentForMove::Page { page_id: id } },
        MoveTarget::ToDataSource(id) => MovePageRequest {
            parent: ParentForMove::DataSource { data_source_id: id },
        },
    }
}

/// The target `MovePageRequest::target` reads back.
pub open spec fn move_body_target(r: MovePageRequest) -> MoveTarget {
    match r.parent {
        ParentForMove::Page { page_id } => MoveTarget::ToPage(page_id),
        ParentForMove::DataSource { data_source_id } => MoveTarget::ToDataSource(data_source_id),
    }
}

/// `/pages/{id}`.
pub fn page_path(id: &PageId) -> (p: String)
    ensures
        p@ == "/pages/"@ + id@,
{
    concat("/pages/", id.as_str())
}

/// `/pages/{id}/move`.
pub fn page_move_path(id: &PageId) -> (p: String)
    ensures
        p@ == "/pages/"@ + id@ + "/move"@,
{
    let mut p = concat("/pages/", id.as_str());
    p.append("/move");
    p
}

} // verus!
