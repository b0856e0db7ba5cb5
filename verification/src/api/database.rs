//! `/v1/databases/*` request bodies: a database is a container of one
//! or more data sources.

use vstd::prelude::*;

use crate::text::{concat, owned};
use crate::types::{Cover, Icon, PropertySchema, RichText};
use crate::validation::{DatabaseId, PageId};

verus! {

/// Parent of a new database: a page (workspace-parented creation
/// needs OAuth user tokens, which integration tokens lack).
#[derive(Debug)]
pub enum CreateDatabaseParent {
    Page { page_id: PageId },
}

impl CreateDatabaseParent {
    pub fn page(id: PageId) -> (p: Self)
        ensures
            p == (CreateDatabaseParent::Page { page_id: id }),
    {
        CreateDatabaseParent::Page { page_id: id }
    }
}

/// Property schemas of the data source Notion creates with the database.
#[derive(Debug)]
pub struct InitialDataSource {
    pub properties: Vec<(String, PropertySchema)>,
}

/// Body of `POST /v1/databases`.
#[derive(Debug)]
pub struct CreateDatabaseRequest {
    pub parent: CreateDatabaseParent,
    pub title: Vec<RichText>,
    pub initial_data_source: InitialDataSource,
    pub icon: Option<Icon>,
    pub cover: Option<Cover>,
    pub is_inline: Option<bool>,
}

pub const EMPTY_PROPERTIES: &'static str = "initial_data_source.properties must not be empty";

pub const MISSING_TITLE: &'static str =
    "initial_data_source.properties must include one Title-typed property";

/// Some schema of the list is the title.
pub open spec fn has_title(props: Seq<(String, PropertySchema)>) -> bool {
    exists|i: int| 0 <= i < props.len() && (#[trigger] props[i]).1.kind@ == "title"@
}

impl CreateDatabaseRequest {
    /// The structural checks made before sending: a non-empty property
    /// list that includes a title property.
    pub fn validate_local(&self) -> (r: Result<(), String>)
        ensures
            ({
                let props = self.initial_data_source.properties@;
                &&& props.len() == 0 ==> (r matches Err(m) && m@ == EMPTY_PROPERTIES@)
                &&& props.len() > 0 && !has_title(props) ==> (r matches Err(m) && m@ == MISSING_TITLE@)
                &&& props.len() > 0 && has_title(props) ==> r is Ok
            }),
    {
        let props = &self.initial_data_source.properties;
        if props.len() == 0 {
            return Err(owned(EMPTY_PROPERTIES));
        }
        let mut i: usize = 0;
        while i < props.len()
            invariant
                i <= props.len(),
                props@ == self.initial_data_source.properties@,
                props@.len() > 0,
                forall|j: int| 0 <= j < i ==> (#[trigger] props@[j]).1.kind@ != "title"@,
            decreases props.len() - i,
        {
            if props[i].1.is_title() {
                assert(has_title(props@)) by {
                    assert((props@[i as int]).1.kind@ == "title"@);
                }
                return Ok(());
            }
            i = i + 1;
        }
        Err(owned(MISSING_TITLE))
    }
}

/// New parent in `PATCH /v1/databases/{id}`: a page or the workspace root.
#[derive(Debug)]
pub enum DatabaseParentUpdate {
    Page { page_id: PageId },
    Workspace { workspace: bool },
}

impl DatabaseParentUpdate {
    pub fn page(id: PageId) -> (p: Self)
        ensures
            p == (DatabaseParentUpdate::Page { page_id: id }),
    {
        DatabaseParentUpdate::Page { page_id: id }
    }

    pub fn workspace() -> (p: Self)
        ensures
            p == (DatabaseParentUpdate::Workspace { workspace: true }),
    {
        DatabaseParentUpdate::Workspace { workspace: true }
    }
}

/// Body of `PATCH /v1/databases/{id}`: only present fields change.
/// `icon` / `cover` are tristate like the page update.
#[derive(Debug)]
pub struct UpdateDatabaseRequest {
    pub parent: Option<DatabaseParentUpdate>,
    pub title: Option<Vec<RichText>>,
    pub description: Option<Vec<RichText>>,
    pub is_inline: Option<bool>,
    pub icon: Option<Option<Icon>>,
    pub cover: Option<Option<Cover>>,
    pub in_trash: Option<bool>,
    pub is_locked: Option<bool>,
}

/// No field is set.
pub open spec fn update_is_empty(r: UpdateDatabaseRequest) -> bool {
    &&& r.parent is None
    &&& r.title is None
    &&& r.description is None
    &&& r.is_inline is None
    &&& r.icon is None
    &&& r.cover is None
    &&& r.in_trash is None
    &&& r.is_locked is None
}

impl Default for UpdateDatabaseRequest {
    fn default() -> (r: Self)
        ensures
            update_is_empty(r),
    {
        UpdateDatabaseRequest {
            parent: None,
            title: None,
            description: None,
            is_inline: None,
            icon: None,
            cover: None,
            in_trash: None,
            is_locked: None,
        }
    }
}

impl UpdateDatabaseRequest {
    /// True when no mutation field is set (an empty PATCH is refused
    /// before it reaches Notion).
    pub fn is_empty(&self) -> (b: bool)
        ensures
            b == update_is_empty(*self),
    {
        self.parent.is_none() && self.title.is_none() && self.description.is_none()
            && self.is_inline.is_none() && self.icon.is_none() && self.cover.is_none()
            && self.in_trash.is_none() && self.is_locked.is_none()
    }
}

/// `/databases/{id}`.
pub fn database_path(id: &DatabaseId) -> (p: String)
    ensures
        p@ == "/databases/"@ + id@,
{
    concat("/databases/", id.as_str())
}

} // verus!
