//! What the MCP tools decide before a request is sent: which ids are
//! valid, which request body the parameters make, and how a failure is
//! reported to the calling agent.
//!
//! JSON parameters that must take a Notion shape (property maps, block
//! bodies, schemas) arrive already parsed, as the parser's outcome; the
//! checks below keep the order in which the tools report errors.

use vstd::prelude::*;

use crate::api::block::{AppendBlockChildrenRequest, UpdateBlockRequest};
use crate::api::data_source::{
    bulk_not_object_message, bulk_request, single_delta, title_from, unknown_kind_message, wire_key_spec,
    BulkBody, CreateDataSourceParent, CreateDataSourceRequest, PropertyDelta,
    QueryDataSourceRequest, SelectKind, UpdateDataSourceRequest,
};
use crate::api::database::{
    has_title, CreateDatabaseParent, CreateDatabaseRequest, InitialDataSource, EMPTY_PROPERTIES,
    MISSING_TITLE,
};
use crate::api::error::{api_error_text, ApiError};
use crate::api::page::{CreatePageRequest, MoveTarget, PageParent, UpdatePageRequest};
use crate::error::IdError;
use crate::mcp::params::{
    AppendBlockChildrenParams, CreateDataSourceParams, CreatePageParams, DbCreateParams,
    DsUpdateParams, PageMoveParams, QueryDataSourceParams, UpdateBlockParams, UpdatePageParams,
};
use crate::text::{concat, has_prefix, owned, text_eq};
use crate::types::{icon_for, Cover, Icon, PropertySchema, RichText, SelectOption};
use crate::validation::{
    id_error_message, url_or_id, BlockId, DataSourceId, DatabaseId, PageId,
};

verus! {

/// A tool failure as the MCP protocol reports it.
#[derive(Debug)]
pub enum ToolError {
    /// The agent's parameters are at fault (`invalid_params`).
    InvalidParams(String),
    /// Notion or the transport failed (`internal_error`).
    Internal(String),
}

/// The agent's side: refused credentials, an unknown object, or a
/// request Notion found invalid.
pub open spec fn is_caller_fault(e: ApiError) -> bool {
    e is Unauthorized || e is NotFound || e is Validation
}

/// An API error as a tool error: the caller's faults are invalid
/// parameters, everything else is internal; the text is the error's
/// message.
pub fn api_to_rpc(e: &ApiError) -> (r: ToolError)
    ensures
        is_caller_fault(*e) ==> (r matches ToolError::InvalidParams(m) && m@ == api_error_text(
            *e,
        )),
        !is_caller_fault(*e) && !(e is Json) ==> (r matches ToolError::Internal(m) && m@
            == api_error_text(*e)),
        e is Json ==> (r matches ToolError::Internal(m) && has_prefix(m@, api_error_text(*e))),
{
    let m = e.message();
    match e {
        ApiError::Unauthorized | ApiError::NotFound | ApiError::Validation { .. } => {
            ToolError::InvalidParams(m)
        },
        _ => ToolError::Internal(m),
    }
}

/// A tool error for a parameter: `"<field>: <message>"`.
pub open spec fn field_message(field: Seq<char>, m: Seq<char>) -> Seq<char> {
    field + ": "@ + m
}

fn invalid_field(field: &str, m: &str) -> (e: ToolError)
    ensures
        e matches ToolError::InvalidParams(t) && t@ == field_message(field@, m@),
{
    let mut t = concat(field, ": ");
    t.append(m);
    ToolError::InvalidParams(t)
}

/// An id parameter's outcome: the id, or an invalid-params error
/// naming the field.
pub fn validate<T>(r: Result<T, IdError>, field: &str) -> (v: Result<T, ToolError>)
    ensures
        r matches Ok(x) ==> v == Ok::<T, ToolError>(x),
        r matches Err(e) ==> (v matches Err(ToolError::InvalidParams(m)) && m@ == field_message(
            field@,
            e.message_spec(),
        )),
{
    match r {
        Ok(x) => Ok(x),
        Err(e) => {
            let m = e.message();
            Err(invalid_field(field, m.as_str()))
        },
    }
}

/// A parsed JSON parameter, or an invalid-params error naming the field.
pub fn parsed<T>(r: Result<T, String>, field: &str) -> (v: Result<T, ToolError>)
    ensures
        r matches Ok(x) ==> v == Ok::<T, ToolError>(x),
        r matches Err(e) ==> (v matches Err(ToolError::InvalidParams(m)) && m@ == field_message(
            field@,
            e@,
        )),
{
    match r {
        Ok(x) => Ok(x),
        Err(e) => Err(invalid_field(field, e.as_str())),
    }
}

/// The message when neither or both parents of a page are given.
pub open spec fn page_parent_message() -> Seq<char> {
    "exactly one of parent_data_source_id or parent_page_id required"@
}

/// The parameters name exactly one parent, and it is a valid id.
pub open spec fn page_parent_ok(p: CreatePageParams) -> bool {
    match (p.parent_data_source_id, p.parent_page_id) {
        (Some(ds), None) => url_or_id(ds@) is Some,
        (None, Some(pg)) => url_or_id(pg@) is Some,
        _ => false,
    }
}

/// The body of `create_page`: the parent, then the property map, then
/// the optional children.
pub fn create_page_request(
    p: &CreatePageParams,
    properties: Result<Vec<(String, serde_json::Value)>, String>,
    children: Option<Result<Vec<serde_json::Value>, String>>,
) -> (r: Result<CreatePageRequest, ToolError>)
    ensures
        p.parent_data_source_id.is_some() == p.parent_page_id.is_some() ==> (r matches Err(
            ToolError::InvalidParams(m),
        ) && m@ == page_parent_message()),
        p.parent_data_source_id matches Some(ds) ==> (p.parent_page_id is None && url_or_id(ds@)
            is None ==> (r matches Err(ToolError::InvalidParams(m)) && m@ == field_message(
            "parent_data_source_id"@,
            id_error_message(ds@),
        ))),
        p.parent_page_id matches Some(pg) ==> (p.parent_data_source_id is None && url_or_id(pg@)
            is None ==> (r matches Err(ToolError::InvalidParams(m)) && m@ == field_message(
            "parent_page_id"@,
            id_error_message(pg@),
        ))),
        properties matches Err(e) ==> (page_parent_ok(*p) ==> (r matches Err(
            ToolError::InvalidParams(m),
        ) && m@ == field_message("properties"@, e@))),
        children matches Some(Err(e)) ==> (page_parent_ok(*p) && properties is Ok ==> (
        r matches Err(ToolError::InvalidParams(m)) && m@ == field_message("children"@, e@))),
        page_parent_ok(*p) && properties is Ok && !(children matches Some(Err(_))) ==> r is Ok,
        r matches Ok(req) ==> {
            &&& (p.parent_data_source_id matches Some(ds) ==> (
            req.parent matches PageParent::DataSource { data_source_id } && url_or_id(ds@) == Some(
                data_source_id@,
            )))
            &&& (p.parent_page_id matches Some(pg) ==> (req.parent matches PageParent::Page {
                page_id,
            } && url_or_id(pg@) == Some(page_id@)))
            &&& (properties matches Ok(ps) && req.properties@ == ps@)
            &&& (children matches Some(Ok(cs)) ==> req.children@ == cs@)
            &&& (children is None ==> req.children@.len() == 0)
            &&& req.icon is None
            &&& req.cover is None
        },
{
    let parent = match (&p.parent_data_source_id, &p.parent_page_id) {
        (Some(ds), None) => PageParent::DataSource {
            data_source_id: validate(
                DataSourceId::from_url_or_id(ds.as_str()),
                "parent_data_source_id",
            )?,
        },
        (None, Some(pg)) => PageParent::Page {
            page_id: validate(PageId::from_url_or_id(pg.as_str()), "parent_page_id")?,
        },
        _ => {
            return Err(
                ToolError::InvalidParams(
                    owned("exactly one of parent_data_source_id or parent_page_id required"),
                ),
            );
        },
    };
    let props = parsed(properties, "properties")?;
    let child_blocks = match children {
        Some(c) => parsed(c, "children")?,
        None => Vec::new(),
    };
    Ok(CreatePageRequest { parent, properties: props, children: child_blocks, icon: None, cover: None })
}

/// The target and body of `update_page`.
pub fn update_page_request(
    p: &UpdatePageParams,
    properties: Option<Result<Vec<(String, serde_json::Value)>, String>>,
) -> (r: Result<(PageId, UpdatePageRequest), ToolError>)
    ensures
        url_or_id(p.page_id@) is None ==> (r matches Err(ToolError::InvalidParams(m)) && m@
            == field_message("page_id"@, id_error_message(p.page_id@))),
        properties matches Some(Err(e)) ==> (url_or_id(p.page_id@) is Some ==> (r matches Err(
            ToolError::InvalidParams(m),
        ) && m@ == field_message("properties"@, e@))),
        url_or_id(p.page_id@) is Some && !(properties matches Some(Err(_))) ==> (r matches Ok(
            (id, req),
        ) && Some(id@) == url_or_id(p.page_id@) && req.archived == p.archived && req.in_trash
            == p.in_trash && req.icon is None && req.cover is None && (properties matches Some(
            Ok(ps),
        ) ==> req.properties@ == ps@) && (properties is None ==> req.properties@.len() == 0)),
{
    let id = validate(PageId::from_url_or_id(p.page_id.as_str()), "page_id")?;
    let props = match properties {
        Some(x) => parsed(x, "properties")?,
        None => Vec::new(),
    };
    Ok(
        (
            id,
            UpdatePageRequest {
                properties: props,
                archived: p.archived,
                in_trash: p.in_trash,
                icon: None,
                cover: None,
            },
        ),
    )
}

/// The body of `create_data_source`: the database, and the title when
/// it is present and not empty.
pub fn create_data_source_request(p: CreateDataSourceParams) -> (r: Result<
    CreateDataSourceRequest,
    ToolError,
>)
    ensures
        url_or_id(p.parent_database_id@) is None ==> (r matches Err(ToolError::InvalidParams(m))
            && m@ == field_message("parent_database_id"@, id_error_message(p.parent_database_id@))),
        url_or_id(p.parent_database_id@) is Some ==> (r matches Ok(req) && (
        req.parent matches CreateDataSourceParent::Database { database_id } && Some(
            database_id@,
        ) == url_or_id(p.parent_database_id@)) && req.properties == p.properties && match p.title {
            Some(t) => if t@.len() > 0 {
                req.title@.len() == 1 && req.title@[0].content@ == t@
            } else {
                req.title@.len() == 0
            },
            None => req.title@.len() == 0,
        }),
{
    let db_id = validate(
        DatabaseId::from_url_or_id(p.parent_database_id.as_str()),
        "parent_database_id",
    )?;
    let title: Option<&str> = match &p.title {
        Some(t) => Some(t.as_str()),
        None => None,
    };
    let title_vec = title_from(title);
    Ok(
        CreateDataSourceRequest {
            parent: CreateDataSourceParent::database(db_id),
            title: title_vec,
            properties: p.properties,
        },
    )
}

/// The body of `db_create`, checked locally before it is sent.
pub fn db_create_request(
    p: &DbCreateParams,
    properties: Result<Vec<(String, PropertySchema)>, String>,
) -> (r: Result<CreateDatabaseRequest, ToolError>)
    ensures
        url_or_id(p.parent_page_id@) is None ==> (r matches Err(ToolError::InvalidParams(m)) && m@
            == field_message("parent_page_id"@, id_error_message(p.parent_page_id@))),
        properties matches Err(e) ==> (url_or_id(p.parent_page_id@) is Some ==> (r matches Err(
            ToolError::InvalidParams(m),
        ) && m@ == field_message("properties"@, e@))),
        properties matches Ok(ps) ==> (url_or_id(p.parent_page_id@) is Some ==> {
            &&& ps@.len() == 0 ==> (r matches Err(ToolError::InvalidParams(m)) && m@
                == EMPTY_PROPERTIES@)
            &&& ps@.len() > 0 && !has_title(ps@) ==> (r matches Err(ToolError::InvalidParams(m))
                && m@ == MISSING_TITLE@)
            &&& ps@.len() > 0 && has_title(ps@) ==> r is Ok
        }),
        r matches Ok(req) ==> {
            &&& (req.parent matches CreateDatabaseParent::Page { page_id } && Some(page_id@)
                == url_or_id(p.parent_page_id@))
            &&& req.title@.len() == 1 && req.title@[0].content@ == p.title@
            &&& (properties matches Ok(ps) && req.initial_data_source.properties@ == ps@)
            &&& (p.icon is None ==> req.icon is None)
            &&& (p.icon matches Some(v) ==> (req.icon matches Some(i) && icon_for(v@, i)))
            &&& (p.cover is None ==> req.cover is None)
            &&& (p.cover matches Some(v) ==> (req.cover matches Some(c) && c.url@ == v@))
            &&& req.is_inline == p.is_inline
        },
{
    let parent_id = validate(PageId::from_url_or_id(p.parent_page_id.as_str()), "parent_page_id")?;
    let props = parsed(properties, "properties")?;
    let req = CreateDatabaseRequest {
        parent: CreateDatabaseParent::page(parent_id),
        title: RichText::plain(p.title.as_str()),
        initial_data_source: InitialDataSource { properties: props },
        icon: match &p.icon {
            Some(v) => Some(Icon::parse_cli(v.as_str())),
            None => None,
        },
        cover: match &p.cover {
            Some(v) => Some(Cover::external(v.as_str())),
            None => None,
        },
        is_inline: p.is_inline,
    };
    match req.validate_local() {
        Ok(()) => Ok(req),
        Err(e) => Err(ToolError::InvalidParams(e)),
    }
}

/// The target and body of `append_block_children`: the block, the
/// children, then the optional sibling to append after.
pub fn append_request(
    p: &AppendBlockChildrenParams,
    children: Result<Vec<serde_json::Value>, String>,
) -> (r: Result<(BlockId, AppendBlockChildrenRequest), ToolError>)
    ensures
        url_or_id(p.block_id@) is None ==> (r matches Err(ToolError::InvalidParams(m)) && m@
            == field_message("block_id"@, id_error_message(p.block_id@))),
        children matches Err(e) ==> (url_or_id(p.block_id@) is Some ==> (r matches Err(
            ToolError::InvalidParams(m),
        ) && m@ == field_message("children"@, e@))),
        p.after matches Some(a) ==> (url_or_id(p.block_id@) is Some && children is Ok && url_or_id(
            a@,
        ) is None ==> (r matches Err(ToolError::InvalidParams(m)) && m@ == field_message(
            "after"@,
            id_error_message(a@),
        ))),
        url_or_id(p.block_id@) is Some && children is Ok && !(p.after matches Some(a) && url_or_id(
            a@,
        ) is None) ==> r is Ok,
        r matches Ok((id, req)) ==> {
            &&& Some(id@) == url_or_id(p.block_id@)
            &&& (children matches Ok(cs) && req.children@ == cs@)
            &&& (p.after is None ==> req.after is None)
            &&& (p.after matches Some(a) ==> (req.after matches Some(b) && Some(b@) == url_or_id(
                a@,
            )))
        },
{
    let id = validate(BlockId::from_url_or_id(p.block_id.as_str()), "block_id")?;
    let cs = parsed(children, "children")?;
    let after = match &p.after {
        Some(a) => Some(validate(BlockId::from_url_or_id(a.as_str()), "after")?),
        None => None,
    };
    Ok((id, AppendBlockChildrenRequest { children: cs, after }))
}

/// The target and body of `update_block`.
pub fn update_block_request(p: &UpdateBlockParams, body: Option<Result<serde_json::Value, String>>) -> (r:
    Result<(BlockId, UpdateBlockRequest), ToolError>)
    ensures
        url_or_id(p.block_id@) is None ==> (r matches Err(ToolError::InvalidParams(m)) && m@
            == field_message("block_id"@, id_error_message(p.block_id@))),
        body matches Some(Err(e)) ==> (url_or_id(p.block_id@) is Some ==> (r matches Err(
            ToolError::InvalidParams(m),
        ) && m@ == field_message("body"@, e@))),
        url_or_id(p.block_id@) is Some && !(body matches Some(Err(_))) ==> (r matches Ok((id, req))
            && Some(id@) == url_or_id(p.block_id@) && req.archived == p.archived && req.in_trash
            == p.in_trash && (body matches Some(Ok(b)) ==> req.body == Some(b)) && (body is None
            ==> req.body is None)),
{
    let id = validate(BlockId::from_url_or_id(p.block_id.as_str()), "block_id")?;
    let b = match body {
        Some(x) => Some(parsed(x, "body")?),
        None => None,
    };
    Ok((id, UpdateBlockRequest { body: b, archived: p.archived, in_trash: p.in_trash }))
}

/// The target of `page_move`: exactly one of the two targets.
pub fn page_move_request(p: &PageMoveParams) -> (r: Result<(PageId, MoveTarget), ToolError>)
    ensures
        url_or_id(p.page_id@) is None ==> (r matches Err(ToolError::InvalidParams(m)) && m@
            == field_message("page_id"@, id_error_message(p.page_id@))),
        url_or_id(p.page_id@) is Some && p.target_page_id.is_some()
            == p.target_data_source_id.is_some() ==> (r matches Err(ToolError::InvalidParams(m))
            && m@ == "exactly one of target_page_id or target_data_source_id required"@),
        p.target_page_id matches Some(t) ==> (url_or_id(p.page_id@) is Some
            && p.target_data_source_id is None ==> match url_or_id(t@) {
            Some(x) => r matches Ok((id, MoveTarget::ToPage(dest))) && dest@ == x && Some(id@)
                == url_or_id(p.page_id@),
            None => r matches Err(ToolError::InvalidParams(m)) && m@ == field_message(
                "target_page_id"@,
                id_error_message(t@),
            ),
        }),
        p.target_data_source_id matches Some(t) ==> (url_or_id(p.page_id@) is Some
            && p.target_page_id is None ==> match url_or_id(t@) {
            Some(x) => r matches Ok((id, MoveTarget::ToDataSource(dest))) && dest@ == x && Some(
                id@,
            ) == url_or_id(p.page_id@),
            None => r matches Err(ToolError::InvalidParams(m)) && m@ == field_message(
                "target_data_source_id"@,
                id_error_message(t@),
            ),
        }),
{
    let id = validate(PageId::from_url_or_id(p.page_id.as_str()), "page_id")?;
    match (&p.target_page_id, &p.target_data_source_id) {
        (Some(t), None) => {
            let dest = validate(PageId::from_url_or_id(t.as_str()), "target_page_id")?;
            Ok((id, MoveTarget::ToPage(dest)))
        },
        (None, Some(t)) => {
            let dest = validate(DataSourceId::from_url_or_id(t.as_str()), "target_data_source_id")?;
            Ok((id, MoveTarget::ToDataSource(dest)))
        },
        _ => Err(
            ToolError::InvalidParams(
                owned("exactly one of target_page_id or target_data_source_id required"),
            ),
        ),
    }
}

// === ds_update ==============================================================

/// The schema changes `ds_update` dispatches on.
#[derive(Debug, Clone, Copy, PartialEq, Eq, Structural)]
pub enum DsAction {
    AddProperty,
    RemoveProperty,
    RenameProperty,
    AddOption,
    Bulk,
}

pub open spec fn ds_action(s: Seq<char>) -> Option<DsAction> {
    if s == "add_property"@ {
        Some(DsAction::AddProperty)
    } else if s == "remove_property"@ {
        Some(DsAction::RemoveProperty)
    } else if s == "rename_property"@ {
        Some(DsAction::RenameProperty)
    } else if s == "add_option"@ {
        Some(DsAction::AddOption)
    } else if s == "bulk"@ {
        Some(DsAction::Bulk)
    } else {
        None
    }
}

pub open spec fn unknown_action_message(action: Seq<char>) -> Seq<char> {
    "unknown action '"@ + action
        + "' (expected: add_property, remove_property, rename_property, add_option, bulk)"@
}

/// `"<action>: '<field>' required"`.
pub open spec fn required_message(action: Seq<char>, field: Seq<char>) -> Seq<char> {
    action + ": '"@ + field + "' required"@
}

pub open spec fn unconfirmed_message() -> Seq<char> {
    "remove_property: destructive — pass confirm=true"@
}

pub open spec fn env_gate_message() -> Seq<char> {
    "remove_property: set NOTION_CLI_ADMIN_CONFIRMED=1 in the notion-cli mcp process environment to enable destructive ops"@
}

/// A required text field of an action.
pub fn field_str<'a>(v: Option<&'a str>, action: &str, field: &str) -> (r: Result<&'a str, ToolError>)
    ensures
        v matches Some(s) ==> (r matches Ok(t) && t@ == s@),
        v is None ==> (r matches Err(ToolError::InvalidParams(m)) && m@ == required_message(
            action@,
            field@,
        )),
{
    match v {
        Some(s) => Ok(s),
        None => Err(required_error(action, field)),
    }
}

/// A text parameter, borrowed.
fn text_param(v: &Option<String>) -> (r: Option<&str>)
    ensures
        match v {
            Some(s) => r matches Some(t) && t@ == s@,
            None => r is None,
        },
{
    match v {
        Some(s) => Some(s.as_str()),
        None => None,
    }
}

fn required_error(action: &str, field: &str) -> (e: ToolError)
    ensures
        e matches ToolError::InvalidParams(m) && m@ == required_message(action@, field@),
{
    let mut m = concat(action, ": '");
    m.append(field);
    m.append("' required");
    ToolError::InvalidParams(m)
}

/// The kind `add_option` uses: `select` unless one is given.
pub open spec fn option_kind_text(kind: Option<String>) -> Seq<char> {
    match kind {
        Some(k) => k@,
        None => "select"@,
    }
}

/// The request of `ds_update`, one schema change per call. The JSON
/// parameters arrive parsed (`None` when the parameter is absent):
/// `schema` as a property schema, `option` as a select option, `body`
/// as the bulk body's fields. `admin_confirmed` says whether the server
/// process was started with `NOTION_CLI_ADMIN_CONFIRMED=1`; removing a
/// property needs it and `confirm: true` both.
pub fn build_ds_update(
    p: &DsUpdateParams,
    admin_confirmed: bool,
    schema: Option<Result<PropertySchema, String>>,
    option: Option<Result<SelectOption, String>>,
    body: Option<BulkBody>,
) -> (r: Result<UpdateDataSourceRequest, ToolError>)
    ensures
        ds_action(p.action@) is None ==> (r matches Err(ToolError::InvalidParams(m)) && m@
            == unknown_action_message(p.action@)),
        ds_action(p.action@) == Some(DsAction::AddProperty) ==> match (p.name, schema) {
            (None, _) => r matches Err(ToolError::InvalidParams(m)) && m@ == required_message(
                "add_property"@,
                "name"@,
            ),
            (Some(_), None) => r matches Err(ToolError::InvalidParams(m)) && m@
                == required_message("add_property"@, "schema"@),
            (Some(_), Some(Err(e))) => r matches Err(ToolError::InvalidParams(m)) && m@
                == field_message("schema"@, e@),
            (Some(n), Some(Ok(s))) => r matches Ok(req) && single_delta(req, n@)
                && req.properties@[0].1 == PropertyDelta::Define(s.definition),
        },
        ds_action(p.action@) == Some(DsAction::RemoveProperty) ==> {
            &&& p.confirm != Some(true) ==> (r matches Err(ToolError::InvalidParams(m)) && m@
                == unconfirmed_message())
            &&& p.confirm == Some(true) && !admin_confirmed ==> (r matches Err(
                ToolError::InvalidParams(m),
            ) && m@ == env_gate_message())
            &&& p.confirm == Some(true) && admin_confirmed ==> match p.name {
                None => r matches Err(ToolError::InvalidParams(m)) && m@ == required_message(
                    "remove_property"@,
                    "name"@,
                ),
                Some(n) => r matches Ok(req) && single_delta(req, n@) && req.properties@[0].1
                    == PropertyDelta::Remove,
            }
        },
        ds_action(p.action@) == Some(DsAction::RenameProperty) ==> match (p.name, p.new_name) {
            (None, _) => r matches Err(ToolError::InvalidParams(m)) && m@ == required_message(
                "rename_property"@,
                "name"@,
            ),
            (Some(_), None) => r matches Err(ToolError::InvalidParams(m)) && m@
                == required_message("rename_property"@, "new_name"@),
            (Some(o), Some(n)) => r matches Ok(req) && single_delta(req, o@) && (
            req.properties@[0].1 matches PropertyDelta::Rename(x) && x@ == n@),
        },
        ds_action(p.action@) == Some(DsAction::AddOption) ==> match p.property {
            None => r matches Err(ToolError::InvalidParams(m)) && m@ == required_message(
                "add_option"@,
                "property"@,
            ),
            Some(prop) => {
                let k = option_kind_text(p.kind);
                &&& (forall|sk: SelectKind| wire_key_spec(sk) != k) ==> (r matches Err(
                    ToolError::InvalidParams(m),
                ) && m@ == "add_option: "@ + unknown_kind_message(k))
                &&& (exists|sk: SelectKind| wire_key_spec(sk) == k) ==> match option {
                    None => r matches Err(ToolError::InvalidParams(m)) && m@ == required_message(
                        "add_option"@,
                        "option"@,
                    ),
                    Some(Err(e)) => r matches Err(ToolError::InvalidParams(m)) && m@
                        == field_message("option"@, e@),
                    Some(Ok(o)) => r matches Ok(req) && single_delta(req, prop@) && (
                    req.properties@[0].1 matches PropertyDelta::AddOption { kind, option: x }
                        && wire_key_spec(kind) == k && x == o),
                }
            },
        },
        ds_action(p.action@) == Some(DsAction::Bulk) ==> match body {
            None => r matches Err(ToolError::InvalidParams(m)) && m@ == required_message(
                "bulk"@,
                "body"@,
            ),
            Some(b) => (!b.is_object ==> (r matches Err(ToolError::InvalidParams(m)) && m@
                == "bulk: "@ + bulk_not_object_message())) && (b.is_object && !(b.title matches Some(
                Err(_),
            )) ==> (r matches Ok(req) && bulk_request(b, req))) && (b.title matches Some(Err(e)) ==> (b.is_object ==> (r matches Err(
                ToolError::InvalidParams(m),
            ) && m@ == "bulk: "@ + "title: "@ + e@))),
        },
{
    proof {
        reveal_strlit("add_property");
        reveal_strlit("remove_property");
        reveal_strlit("rename_property");
        reveal_strlit("add_option");
        reveal_strlit("bulk");
    }
    let action = p.action.as_str();
    if text_eq(action, "add_property") {
        let name = field_str(text_param(&p.name), "add_property", "name")?;
        let s = match schema {
            Some(s) => parsed(s, "schema")?,
            None => {
                return Err(required_error("add_property", "schema"));
            },
        };
        Ok(UpdateDataSourceRequest::add_property(name, &s))
    } else if text_eq(action, "remove_property") {
        if p.confirm != Some(true) {
            return Err(ToolError::InvalidParams(owned("remove_property: destructive — pass confirm=true")));
        }
        if !admin_confirmed {
            return Err(
                ToolError::InvalidParams(
                    owned(
                        "remove_property: set NOTION_CLI_ADMIN_CONFIRMED=1 in the notion-cli mcp process environment to enable destructive ops",
                    ),
                ),
            );
        }
        let name = field_str(text_param(&p.name), "remove_property", "name")?;
        Ok(UpdateDataSourceRequest::remove_property(name))
    } else if text_eq(action, "rename_property") {
        let old = field_str(text_param(&p.name), "rename_property", "name")?;
        let new = field_str(text_param(&p.new_name), "rename_property", "new_name")?;
        Ok(UpdateDataSourceRequest::rename_property(old, new))
    } else if text_eq(action, "add_option") {
        let prop = field_str(text_param(&p.property), "add_option", "property")?;
        let kind_str: &str = match &p.kind {
            Some(k) => k.as_str(),
            None => "select",
        };
        let kind = match SelectKind::parse(kind_str) {
            Ok(k) => k,
            Err(e) => {
                return Err(ToolError::InvalidParams(concat("add_option: ", e.as_str())));
            },
        };
        let o = match option {
            Some(o) => parsed(o, "option")?,
            None => {
                return Err(required_error("add_option", "option"));
            },
        };
        Ok(UpdateDataSourceRequest::add_option(prop, kind, o))
    } else if text_eq(action, "bulk") {
        let b = match body {
            Some(b) => b,
            None => {
                return Err(required_error("bulk", "body"));
            },
        };
        match UpdateDataSourceRequest::from_bulk(b) {
            Ok(req) => Ok(req),
            Err(e) => Err(ToolError::InvalidParams(concat("bulk: ", e.as_str()))),
        }
    } else {
        let mut m = concat("unknown action '", action);
        m.append("' (expected: add_property, remove_property, rename_property, add_option, bulk)");
        Err(ToolError::InvalidParams(m))
    }
}

/// The tool name an admin `ds_update` is audited under: `ds_update:<action>`.
pub fn ds_update_audit_name(action: &str) -> (s: String)
    ensures
        s@ == "ds_update:"@ + action@,
{
    concat("ds_update:", action)
}

/// The target and body of `query_data_source`: the data source, then
/// the parsed sorts (`None` when absent: no sorts).
pub fn query_request(
    p: QueryDataSourceParams,
    sorts: Option<Result<Vec<serde_json::Value>, String>>,
) -> (r: Result<(DataSourceId, QueryDataSourceRequest), ToolError>)
    ensures
        url_or_id(p.data_source_id@) is None ==> (r matches Err(ToolError::InvalidParams(m)) && m@
            == field_message("data_source_id"@, id_error_message(p.data_source_id@))),
        sorts matches Some(Err(e)) ==> (url_or_id(p.data_source_id@) is Some ==> (r matches Err(
            ToolError::InvalidParams(m),
        ) && m@ == field_message("sorts"@, e@))),
        url_or_id(p.data_source_id@) is Some && !(sorts matches Some(Err(_))) ==> (r matches Ok(
            (id, req),
        ) && Some(id@) == url_or_id(p.data_source_id@) && req.filter == p.filter
            && req.start_cursor == p.start_cursor && req.page_size == p.page_size && (
        sorts matches Some(Ok(ss)) ==> req.sorts@ == ss@) && (sorts is None ==> req.sorts@.len()
            == 0)),
{
    let id = validate(DataSourceId::from_url_or_id(p.data_source_id.as_str()), "data_source_id")?;
    let ss = match sorts {
        Some(x) => parsed(x, "sorts")?,
        None => Vec::new(),
    };
    Ok(
        (
            id,
            QueryDataSourceRequest {
                filter: p.filter,
                sorts: ss,
                start_cursor: p.start_cursor,
                page_size: p.page_size,
            },
        ),
    )
}

} // verus!
