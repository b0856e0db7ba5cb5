use notion_cli::api::block::{block_children_path, block_path, AppendBlockChildrenRequest};
use notion_cli::api::comment::{comments_path, ListCommentsOptions};
use notion_cli::api::data_source::{
    data_source_path, data_source_query_path, property_map, title_from, BulkBody, PropertyDelta,
    RelationDirection, SelectKind, UpdateDataSourceRequest,
};
use notion_cli::api::database::{
    database_path, CreateDatabaseParent, CreateDatabaseRequest, InitialDataSource,
    UpdateDatabaseRequest,
};
use notion_cli::api::page::{archive_request, page_move_path, page_path, MovePageRequest, MoveTarget, ParentForMove};
use notion_cli::api::pagination::PaginatedResponse;
use notion_cli::api::user::{user_path, users_path, ListUsersOptions};
use notion_cli::types::{Color, Cover, Icon, PropertySchema, RichText, SelectOption};
use notion_cli::validation::{BlockId, DataSourceId, DatabaseId, PageId, UserId};
use serde_json::Value;

const DASHED: &str = "abcdef01-2345-6789-abcd-ef0123456789";

fn json(text: &str) -> Value {
    serde_json::from_str(text).unwrap()
}

fn schema(kind: &str) -> PropertySchema {
    PropertySchema { kind: kind.to_string(), definition: Value::Null }
}

#[test]
fn paths() {
    let p = PageId::parse(DASHED).unwrap();
    assert_eq!(page_path(&p), format!("/pages/{DASHED}"));
    assert_eq!(page_move_path(&p), format!("/pages/{DASHED}/move"));
    let d = DataSourceId::parse(DASHED).unwrap();
    assert_eq!(data_source_path(&d), format!("/data_sources/{DASHED}"));
    assert_eq!(data_source_query_path(&d), format!("/data_sources/{DASHED}/query"));
    let db = DatabaseId::parse(DASHED).unwrap();
    assert_eq!(database_path(&db), format!("/databases/{DASHED}"));
    let b = BlockId::parse(DASHED).unwrap();
    assert_eq!(block_path(&b), format!("/blocks/{DASHED}"));
    let u = UserId::parse(DASHED).unwrap();
    assert_eq!(user_path(&u), format!("/users/{DASHED}"));
}

#[test]
fn query_strings_are_form_encoded() {
    let b = BlockId::parse(DASHED).unwrap();
    assert_eq!(block_children_path(&b, None, None), format!("/blocks/{DASHED}/children"));
    assert_eq!(
        block_children_path(&b, Some("a b/c"), Some(50)),
        format!("/blocks/{DASHED}/children?start_cursor=a+b%2Fc&page_size=50")
    );
    let opts = ListCommentsOptions { block_id: b, page_size: Some(10), start_cursor: Some("x=y".to_string()) };
    assert_eq!(comments_path(&opts), format!("/comments?block_id={DASHED}&page_size=10&start_cursor=x%3Dy"));
    assert_eq!(users_path(&ListUsersOptions::default()), "/users?");
    let opts = ListUsersOptions { page_size: Some(100), start_cursor: None };
    assert_eq!(users_path(&opts), "/users?page_size=100");
}

#[test]
fn select_kind_wire_keys() {
    assert_eq!(SelectKind::MultiSelect.wire_key(), "multi_select");
    assert_eq!(SelectKind::parse("status").unwrap(), SelectKind::Status);
    assert_eq!(
        SelectKind::parse("date").unwrap_err(),
        "unknown option-capable kind 'date' (expected select, multi_select, status)"
    );
}

#[test]
fn single_delta_builders() {
    let r = UpdateDataSourceRequest::remove_property("Old");
    assert_eq!(r.properties.len(), 1);
    assert_eq!(r.properties[0].0, "Old");
    assert!(matches!(r.properties[0].1, PropertyDelta::Remove));
    assert!(r.title.is_none() && r.archived.is_none() && r.in_trash.is_none());

    let r = UpdateDataSourceRequest::rename_property("A", "B");
    match &r.properties[0].1 {
        PropertyDelta::Rename(n) => assert_eq!(n, "B"),
        other => panic!("unexpected {other:?}"),
    }

    let opt = SelectOption { id: None, name: "High".to_string(), color: Some(Color::Red) };
    let r = UpdateDataSourceRequest::add_option("Priority", SelectKind::Select, opt);
    match &r.properties[0].1 {
        PropertyDelta::AddOption { kind, option } => {
            assert_eq!(*kind, SelectKind::Select);
            assert_eq!(option.name, "High");
        }
        other => panic!("unexpected {other:?}"),
    }

    let s = PropertySchema { kind: "number".to_string(), definition: json(r#"{"number": {}}"#) };
    let r = UpdateDataSourceRequest::add_property("Count", &s);
    match &r.properties[0].1 {
        PropertyDelta::Define(v) => assert_eq!(v, &json(r#"{"number": {}}"#)),
        other => panic!("unexpected {other:?}"),
    }

    let target = DataSourceId::parse(DASHED).unwrap();
    let r = UpdateDataSourceRequest::add_relation_property("Rel", target, RelationDirection::Dual("Back".to_string()));
    match &r.properties[0].1 {
        PropertyDelta::Relation { target, direction } => {
            assert_eq!(target.as_str(), DASHED);
            assert_eq!(direction, &RelationDirection::Dual("Back".to_string()));
        }
        other => panic!("unexpected {other:?}"),
    }
}

#[test]
fn bulk_body_rules() {
    let not_object = BulkBody { is_object: false, title: None, properties: None, archived: None, in_trash: None };
    assert_eq!(UpdateDataSourceRequest::from_bulk(not_object).unwrap_err(), "bulk body must be a JSON object");
    let bad_title = BulkBody {
        is_object: true,
        title: Some(Err("expected a sequence".to_string())),
        properties: None,
        archived: None,
        in_trash: None,
    };
    assert_eq!(UpdateDataSourceRequest::from_bulk(bad_title).unwrap_err(), "title: expected a sequence");
    let ok = BulkBody {
        is_object: true,
        title: Some(Ok(RichText::plain("T"))),
        properties: Some(vec![("A".to_string(), Value::Null), ("B".to_string(), json(r#"{"name": "C"}"#))]),
        archived: Some(false),
        in_trash: None,
    };
    let r = UpdateDataSourceRequest::from_bulk(ok).unwrap();
    assert_eq!(r.title.unwrap()[0].content, "T");
    assert_eq!(r.properties.len(), 2);
    assert!(matches!(r.properties[0].1, PropertyDelta::Verbatim(Value::Null)));
    assert_eq!(r.archived, Some(false));
}

#[test]
fn property_map_last_entry_wins() {
    let m = property_map(vec![("a".to_string(), 1u8), ("b".to_string(), 2u8), ("a".to_string(), 3u8)]);
    assert_eq!(m.len(), 2);
    let a = m.iter().find(|(k, _)| k == "a").unwrap();
    assert_eq!(a.1, 3);
    let b = m.iter().find(|(k, _)| k == "b").unwrap();
    assert_eq!(b.1, 2);
}

#[test]
fn title_from_skips_empty() {
    assert!(title_from(None).is_empty());
    assert!(title_from(Some("")).is_empty());
    let t = title_from(Some("Tasks"));
    assert_eq!(t.len(), 1);
    assert_eq!(t[0].content, "Tasks");
}

#[test]
fn database_create_local_checks() {
    let make = |props: Vec<(String, PropertySchema)>| CreateDatabaseRequest {
        parent: CreateDatabaseParent::page(PageId::parse(DASHED).unwrap()),
        title: RichText::plain("DB"),
        initial_data_source: InitialDataSource { properties: props },
        icon: None,
        cover: None,
        is_inline: None,
    };
    assert_eq!(make(vec![]).validate_local().unwrap_err(), "initial_data_source.properties must not be empty");
    assert_eq!(
        make(vec![("Tags".to_string(), schema("multi_select"))]).validate_local().unwrap_err(),
        "initial_data_source.properties must include one Title-typed property"
    );
    assert!(make(vec![("Tags".to_string(), schema("multi_select")), ("Name".to_string(), schema("title"))])
        .validate_local()
        .is_ok());
}

#[test]
fn database_update_emptiness() {
    let mut r = UpdateDatabaseRequest::default();
    assert!(r.is_empty());
    r.in_trash = Some(true);
    assert!(!r.is_empty());
}

#[test]
fn archive_and_move_bodies() {
    let r = archive_request();
    assert_eq!(r.in_trash, Some(true));
    assert!(r.archived.is_none() && r.properties.is_empty() && r.icon.is_none() && r.cover.is_none());

    let target = MoveTarget::ToDataSource(DataSourceId::parse(DASHED).unwrap());
    let body = MovePageRequest::to(target);
    match &body.parent {
        ParentForMove::DataSource { data_source_id } => assert_eq!(data_source_id.as_str(), DASHED),
        other => panic!("unexpected {other:?}"),
    }
    match body.target() {
        MoveTarget::ToDataSource(d) => assert_eq!(d.as_str(), DASHED),
        other => panic!("unexpected {other:?}"),
    }
}

#[test]
fn append_request_defaults() {
    let r = AppendBlockChildrenRequest::new(vec![Value::Null]);
    assert_eq!(r.children.len(), 1);
    assert!(r.after.is_none());
}

#[test]
fn pagination_exhaustion() {
    let r: PaginatedResponse<u8> = PaginatedResponse { results: vec![], has_more: true, next_cursor: None };
    assert!(r.is_exhausted());
    let r: PaginatedResponse<u8> = PaginatedResponse { results: vec![], has_more: true, next_cursor: Some("c".to_string()) };
    assert!(!r.is_exhausted());
    let r: PaginatedResponse<u8> = PaginatedResponse { results: vec![], has_more: false, next_cursor: Some("c".to_string()) };
    assert!(r.is_exhausted());
}

#[test]
fn icons_covers_colors() {
    assert!(matches!(Icon::parse_cli("🚀"), Icon::Emoji(e) if e == "🚀"));
    assert!(matches!(Icon::parse_cli("https://x/i.png"), Icon::External(u) if u == "https://x/i.png"));
    assert_eq!(Cover::external("https://c").url, "https://c");
    assert_eq!(Color::from_name("purple"), Some(Color::Purple));
    assert_eq!(Color::from_name("teal"), None);
    assert_eq!(Color::Default.wire_name(), "default");
    assert!(schema("title").is_title());
    assert!(!schema("rich_text").is_title());
}
