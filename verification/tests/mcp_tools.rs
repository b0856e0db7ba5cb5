use std::path::PathBuf;

use notion_cli::api::data_source::{BulkBody, PropertyDelta, SelectKind};
use notion_cli::api::error::ApiError;
use notion_cli::api::page::{MoveTarget, PageParent};
use notion_cli::mcp::audit::{audit_line, AuditLog, Privilege};
use notion_cli::mcp::handlers::{
    api_to_rpc, append_request, build_ds_update, create_data_source_request, create_page_request,
    db_create_request, ds_update_audit_name, field_str, page_move_request, query_request, update_block_request,
    update_page_request, validate, ToolError,
};
use notion_cli::mcp::params::{
    AppendBlockChildrenParams, CreateDataSourceParams, CreatePageParams, DbCreateParams, DsUpdateParams,
    PageMoveParams, QueryDataSourceParams, UpdateBlockParams, UpdatePageParams,
};
use notion_cli::types::{PropertySchema, SelectOption};
use notion_cli::validation::PageId;
use serde_json::Value;

const HEX: &str = "abcdef0123456789abcdef0123456789";
const DASHED: &str = "abcdef01-2345-6789-abcd-ef0123456789";

fn params_error(e: ToolError) -> String {
    match e {
        ToolError::InvalidParams(m) => m,
        other => panic!("expected invalid params, got {other:?}"),
    }
}

fn ds_params(action: &str) -> DsUpdateParams {
    DsUpdateParams {
        data_source_id: HEX.to_string(),
        action: action.to_string(),
        name: None,
        new_name: None,
        schema: None,
        confirm: None,
        property: None,
        kind: None,
        option: None,
        body: None,
    }
}

#[test]
fn api_errors_map_to_protocol_errors() {
    assert!(matches!(api_to_rpc(&ApiError::NotFound), ToolError::InvalidParams(m) if m.starts_with("resource not found")));
    assert!(matches!(api_to_rpc(&ApiError::Unauthorized), ToolError::InvalidParams(_)));
    let v = ApiError::Validation { code: "c".to_string(), message: "m".to_string() };
    assert!(matches!(api_to_rpc(&v), ToolError::InvalidParams(m) if m == "Notion validation error [c]: m"));
    assert!(matches!(api_to_rpc(&ApiError::RateLimited { retry_after: Some(2) }), ToolError::Internal(m) if m == "rate limited (retry after Some(2)s)"));
    assert!(matches!(api_to_rpc(&ApiError::BodyTooLarge { limit_bytes: 5 }), ToolError::Internal(_)));
}

#[test]
fn id_fields_are_named() {
    let e = validate(PageId::from_url_or_id("xyz"), "page_id").unwrap_err();
    assert_eq!(params_error(e), "page_id: invalid Notion ID: expected 32 hex digits or a dashed UUID");
    assert_eq!(validate(PageId::from_url_or_id(HEX), "page_id").unwrap().as_str(), DASHED);
}

#[test]
fn create_page_tool() {
    let p = CreatePageParams { parent_data_source_id: None, parent_page_id: None, properties: Value::Null, children: None };
    assert_eq!(
        params_error(create_page_request(&p, Ok(vec![]), None).unwrap_err()),
        "exactly one of parent_data_source_id or parent_page_id required"
    );
    let p = CreatePageParams { parent_data_source_id: Some(HEX.to_string()), parent_page_id: None, properties: Value::Null, children: None };
    assert_eq!(params_error(create_page_request(&p, Err("eof".to_string()), None).unwrap_err()), "properties: eof");
    assert_eq!(
        params_error(create_page_request(&p, Ok(vec![]), Some(Err("bad".to_string()))).unwrap_err()),
        "children: bad"
    );
    let req = create_page_request(&p, Ok(vec![("Name".to_string(), Value::Null)]), Some(Ok(vec![Value::Null]))).unwrap();
    assert!(matches!(req.parent, PageParent::DataSource { .. }));
    assert_eq!(req.children.len(), 1);
}

#[test]
fn update_page_tool() {
    let p = UpdatePageParams { page_id: HEX.to_string(), properties: None, archived: None, in_trash: Some(true) };
    let (id, req) = update_page_request(&p, None).unwrap();
    assert_eq!(id.as_str(), DASHED);
    assert_eq!(req.in_trash, Some(true));
    assert!(req.properties.is_empty());
    let p = UpdatePageParams { page_id: "".to_string(), properties: None, archived: None, in_trash: None };
    assert_eq!(params_error(update_page_request(&p, None).unwrap_err()), "page_id: invalid Notion ID: empty identifier");
}

#[test]
fn create_data_source_tool() {
    let p = CreateDataSourceParams { parent_database_id: HEX.to_string(), title: Some("T".to_string()), properties: Value::Null };
    let req = create_data_source_request(p).unwrap();
    assert_eq!(req.title[0].content, "T");
    let p = CreateDataSourceParams { parent_database_id: "x".to_string(), title: None, properties: Value::Null };
    assert!(params_error(create_data_source_request(p).unwrap_err()).starts_with("parent_database_id: "));
}

#[test]
fn db_create_tool() {
    let p = DbCreateParams {
        parent_page_id: HEX.to_string(),
        title: "DB".to_string(),
        properties: Value::Null,
        icon: None,
        cover: None,
        is_inline: Some(true),
    };
    assert_eq!(
        params_error(db_create_request(&p, Ok(vec![])).unwrap_err()),
        "initial_data_source.properties must not be empty"
    );
    let props = vec![("Name".to_string(), PropertySchema { kind: "title".to_string(), definition: Value::Null })];
    let req = db_create_request(&p, Ok(props)).unwrap();
    assert_eq!(req.is_inline, Some(true));
    assert_eq!(params_error(db_create_request(&p, Err("x".to_string())).unwrap_err()), "properties: x");
}

#[test]
fn block_tools() {
    let p = AppendBlockChildrenParams { block_id: HEX.to_string(), children: Value::Null, after: Some("bad".to_string()) };
    assert_eq!(
        params_error(append_request(&p, Ok(vec![])).unwrap_err()),
        "after: invalid Notion ID: expected 32 hex digits or a dashed UUID"
    );
    let p = AppendBlockChildrenParams { block_id: HEX.to_string(), children: Value::Null, after: Some(HEX.to_string()) };
    let (_, req) = append_request(&p, Ok(vec![Value::Null])).unwrap();
    assert_eq!(req.after.unwrap().as_str(), DASHED);
    let p = UpdateBlockParams { block_id: HEX.to_string(), body: None, archived: Some(true), in_trash: None };
    let (_, req) = update_block_request(&p, None).unwrap();
    assert!(req.body.is_none());
    assert_eq!(req.archived, Some(true));
    assert_eq!(params_error(update_block_request(&p, Some(Err("b".to_string()))).unwrap_err()), "body: b");
}

#[test]
fn query_and_move_tools() {
    let p = QueryDataSourceParams { data_source_id: HEX.to_string(), filter: None, sorts: None, start_cursor: None, page_size: Some(3) };
    let (_, req) = query_request(p, Some(Ok(vec![Value::Null]))).unwrap();
    assert_eq!(req.sorts.len(), 1);
    assert_eq!(req.page_size, Some(3));
    let p = PageMoveParams { page_id: HEX.to_string(), target_page_id: None, target_data_source_id: Some(HEX.to_string()) };
    assert!(matches!(page_move_request(&p).unwrap().1, MoveTarget::ToDataSource(_)));
    let p = PageMoveParams { page_id: HEX.to_string(), target_page_id: None, target_data_source_id: None };
    assert_eq!(
        params_error(page_move_request(&p).unwrap_err()),
        "exactly one of target_page_id or target_data_source_id required"
    );
}

#[test]
fn ds_update_tool_actions() {
    assert_eq!(
        params_error(build_ds_update(&ds_params("drop"), true, None, None, None).unwrap_err()),
        "unknown action 'drop' (expected: add_property, remove_property, rename_property, add_option, bulk)"
    );
    assert_eq!(
        params_error(build_ds_update(&ds_params("add_property"), true, None, None, None).unwrap_err()),
        "add_property: 'name' required"
    );
    let mut p = ds_params("add_property");
    p.name = Some("N".to_string());
    assert_eq!(params_error(build_ds_update(&p, true, None, None, None).unwrap_err()), "add_property: 'schema' required");
    assert_eq!(
        params_error(build_ds_update(&p, true, Some(Err("oops".to_string())), None, None).unwrap_err()),
        "schema: oops"
    );

    let mut p = ds_params("remove_property");
    p.name = Some("Old".to_string());
    assert_eq!(
        params_error(build_ds_update(&p, true, None, None, None).unwrap_err()),
        "remove_property: destructive — pass confirm=true"
    );
    p.confirm = Some(true);
    assert_eq!(
        params_error(build_ds_update(&p, false, None, None, None).unwrap_err()),
        "remove_property: set NOTION_CLI_ADMIN_CONFIRMED=1 in the notion-cli mcp process environment to enable destructive ops"
    );
    let req = build_ds_update(&p, true, None, None, None).unwrap();
    assert!(matches!(req.properties[0].1, PropertyDelta::Remove));

    let mut p = ds_params("add_option");
    p.property = Some("Tags".to_string());
    p.kind = Some("date".to_string());
    assert_eq!(
        params_error(build_ds_update(&p, true, None, None, None).unwrap_err()),
        "add_option: unknown option-capable kind 'date' (expected select, multi_select, status)"
    );
    p.kind = None;
    assert_eq!(params_error(build_ds_update(&p, true, None, None, None).unwrap_err()), "add_option: 'option' required");
    let opt = SelectOption { id: None, name: "x".to_string(), color: None };
    let req = build_ds_update(&p, true, None, Some(Ok(opt)), None).unwrap();
    assert!(matches!(req.properties[0].1, PropertyDelta::AddOption { kind: SelectKind::Select, .. }));

    let mut p = ds_params("rename_property");
    p.name = Some("A".to_string());
    assert_eq!(params_error(build_ds_update(&p, true, None, None, None).unwrap_err()), "rename_property: 'new_name' required");

    let p = ds_params("bulk");
    assert_eq!(params_error(build_ds_update(&p, true, None, None, None).unwrap_err()), "bulk: 'body' required");
    let b = BulkBody { is_object: false, title: None, properties: None, archived: None, in_trash: None };
    assert_eq!(
        params_error(build_ds_update(&p, true, None, None, Some(b)).unwrap_err()),
        "bulk: bulk body must be a JSON object"
    );
    assert_eq!(ds_update_audit_name("bulk"), "ds_update:bulk");
}

#[test]
fn audit_lines() {
    let line = audit_line(1700000000, Privilege::Write, "create_page", Some("abc"), Ok(()), None);
    assert_eq!(
        line,
        r#"{"ts":1700000000,"privilege":"write","tool":"create_page","target":"abc","result":"ok","error":null}"#
    );
    let line = audit_line(0, Privilege::Admin, "ds_update:bulk", None, Err("bad \"x\"\n"), Some("r-1"));
    assert_eq!(
        line,
        r#"{"ts":0,"privilege":"admin","tool":"ds_update:bulk","target":null,"result":"err","error":"bad \"x\"\n","request_id":"r-1"}"#
    );
}

#[test]
fn audit_line_escapes_controls() {
    let line = audit_line(7, Privilege::Write, "a\u{1}b\\", None, Err("t\tr\r"), None);
    assert_eq!(
        line,
        r#"{"ts":7,"privilege":"write","tool":"a\u0001b\\","target":null,"result":"err","error":"t\tr\r"}"#
    );
}

#[test]
fn audit_sinks_by_tier() {
    let log = AuditLog::new(Some(PathBuf::from("/tmp/w.jsonl")));
    assert!(log.record_admin("db_create", None, Ok(()), None, 1).is_none());
    let (path, line) = log.record("update_page", Some("p"), Ok(()), None, 2).unwrap();
    assert_eq!(path, &PathBuf::from("/tmp/w.jsonl"));
    assert!(line.contains("\"privilege\":\"write\""));

    let log = AuditLog::new_with_admin(None, Some(PathBuf::from("/tmp/a.jsonl")));
    assert!(log.record("update_page", None, Ok(()), None, 3).is_none());
    let (path, line) = log.record_admin("page_move", Some("p"), Err("no"), None, 4).unwrap();
    assert_eq!(path, &PathBuf::from("/tmp/a.jsonl"));
    assert!(line.contains("\"result\":\"err\""));

    let log = AuditLog::default();
    assert!(log.record("x", None, Ok(()), None, 0).is_none());
    assert!(log.record_admin("x", None, Ok(()), None, 0).is_none());
}

#[test]
fn required_fields() {
    assert_eq!(field_str(Some("x"), "add_option", "property").unwrap(), "x");
    assert_eq!(params_error(field_str(None, "add_option", "property").unwrap_err()), "add_option: 'property' required");
}
