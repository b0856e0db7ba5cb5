use notion_cli::api::data_source::{PropertyDelta, RelationDirection, SelectKind};
use notion_cli::api::database::{CreateDatabaseParent, DatabaseParentUpdate, UpdateDatabaseRequest};
use notion_cli::api::page::{MoveTarget, PageParent};
use notion_cli::cli::block::{append_request as block_append, update_request as block_update};
use notion_cli::cli::comment::{create_request as comment_request, list_target};
use notion_cli::cli::db::{check_create_flags, checked_create, create_request as db_create, require_fields, update_request};
use notion_cli::cli::ds::{
    build_update, confirm_prompt, confirms, create_request as ds_create, parse_color, query_request as ds_query,
    resolve_relation, SelectKindArg, UpdateCmd, UpdateInput,
};
use notion_cli::cli::error::CliError;
use notion_cli::cli::json_body::{json_body_source, parse_json_body, reject_json_with_bespoke, JsonBodySource};
use notion_cli::cli::mcp::{McpArgs, McpTier};
use notion_cli::cli::page::{
    build_create, build_update as page_update, create_parent, move_target, page_get_path, page_property_path,
    parse_cover_flag, parse_cover_url, parse_icon_flag,
};
use notion_cli::cli::search::{search_request, SearchArgs};
use notion_cli::cli::user::{filter_label, user_id_arg};
use notion_cli::cli::{Cli, Command};
use notion_cli::types::{Color, Icon, PropertySchema};
use notion_cli::validation::PageId;
use serde_json::Value;

const HEX: &str = "abcdef0123456789abcdef0123456789";
const DASHED: &str = "abcdef01-2345-6789-abcd-ef0123456789";

fn usage(r: CliError) -> String {
    match r {
        CliError::Usage(m) => m,
        other => panic!("expected usage error, got {other:?}"),
    }
}

fn invalid(r: CliError) -> String {
    match r {
        CliError::Validation(m) => m,
        other => panic!("expected validation error, got {other:?}"),
    }
}

#[test]
fn json_body_sources() {
    assert!(matches!(json_body_source("-"), JsonBodySource::Stdin));
    assert!(matches!(json_body_source("@body.json"), JsonBodySource::File(p) if p == "body.json"));
    assert!(matches!(json_body_source("{\"a\":1}"), JsonBodySource::Literal(l) if l == "{\"a\":1}"));
}

#[test]
fn json_excludes_bespoke_flags() {
    assert!(reject_json_with_bespoke(false, &[("--title", true)]).is_ok());
    assert!(reject_json_with_bespoke(true, &[("--title", false)]).is_ok());
    let e = reject_json_with_bespoke(true, &[("--title", true), ("--icon", false), ("--cover", true)]).unwrap_err();
    assert_eq!(e.exit_code(), 2);
    assert_eq!(invalid(e), "--json is mutually exclusive with --title, --cover; remove one");
}

#[test]
fn icon_and_cover_tristates() {
    assert!(parse_icon_flag(None).is_none());
    assert!(matches!(parse_icon_flag(Some("NONE")), Some(None)));
    assert!(matches!(parse_icon_flag(Some("⭐")), Some(Some(Icon::Emoji(e))) if e == "⭐"));
    assert!(matches!(parse_cover_flag(None), Ok(None)));
    assert!(matches!(parse_cover_flag(Some("None")), Ok(Some(None))));
    assert!(matches!(parse_cover_flag(Some("https://img")), Ok(Some(Some(c))) if c.url == "https://img"));
    assert_eq!(
        parse_cover_flag(Some("img.png")).unwrap_err(),
        "must be a URL (http:// or https://), got: img.png"
    );
    assert_eq!(parse_cover_url("http://a").unwrap().url, "http://a");
}

#[test]
fn page_create_parent_exactly_one() {
    assert_eq!(
        usage(create_parent(None, None).unwrap_err()),
        "exactly one of --parent-data-source or --parent-page required"
    );
    assert_eq!(
        usage(create_parent(Some(HEX), Some(HEX)).unwrap_err()),
        "exactly one of --parent-data-source or --parent-page required"
    );
    match create_parent(Some(HEX), None).unwrap() {
        PageParent::DataSource { data_source_id } => assert_eq!(data_source_id.as_str(), DASHED),
        other => panic!("unexpected {other:?}"),
    }
    assert_eq!(
        invalid(create_parent(None, Some("nope")).unwrap_err()),
        "--parent-page: invalid Notion ID: expected 32 hex digits or a dashed UUID"
    );
}

#[test]
fn page_create_error_order() {
    let e = build_create(Some(HEX), None, Some(Err("bad props".to_string())), Some(Err("bad kids".to_string())), None, Some("x"))
        .unwrap_err();
    assert_eq!(invalid(e), "--properties: bad props");
    let e = build_create(Some(HEX), None, None, Some(Err("bad kids".to_string())), None, Some("x")).unwrap_err();
    assert_eq!(invalid(e), "--children: bad kids");
    let e = build_create(Some(HEX), None, None, None, None, Some("x")).unwrap_err();
    assert_eq!(invalid(e), "--cover: must be a URL (http:// or https://), got: x");
    let req = build_create(
        None,
        Some(HEX),
        Some(Ok(vec![("Name".to_string(), Value::Null)])),
        None,
        Some("https://i"),
        Some("https://c"),
    )
    .unwrap();
    assert!(matches!(req.parent, PageParent::Page { .. }));
    assert_eq!(req.properties.len(), 1);
    assert!(req.children.is_empty());
    assert!(matches!(req.icon, Some(Icon::External(u)) if u == "https://i"));
    assert_eq!(req.cover.unwrap().url, "https://c");
}

#[test]
fn page_update_body() {
    let req = page_update(None, Some(true), None, Some("none"), Some("https://c")).unwrap();
    assert!(req.properties.is_empty());
    assert_eq!(req.archived, Some(true));
    assert!(req.in_trash.is_none());
    assert!(matches!(req.icon, Some(None)));
    assert!(matches!(req.cover, Some(Some(ref c)) if c.url == "https://c"));
    let e = page_update(None, None, None, None, Some("c.png")).unwrap_err();
    assert_eq!(invalid(e), "--cover: must be a URL (http:// or https://), got: c.png");
}

#[test]
fn page_move_target_exactly_one() {
    assert_eq!(
        usage(move_target(None, None).unwrap_err()),
        "exactly one of --to-page or --to-data-source required"
    );
    assert!(matches!(move_target(None, Some(HEX)).unwrap(), MoveTarget::ToDataSource(_)));
    assert_eq!(
        invalid(move_target(Some(""), None).unwrap_err()),
        "--to-page: invalid Notion ID: empty identifier"
    );
}

#[test]
fn page_dry_run_paths() {
    let id = PageId::parse(HEX).unwrap();
    assert_eq!(page_get_path(&id, &vec![]), format!("/v1/pages/{DASHED}"));
    assert_eq!(
        page_get_path(&id, &vec!["a%3F".to_string(), "title".to_string()]),
        format!("/v1/pages/{DASHED}?filter_properties=a%3F&filter_properties=title")
    );
    assert_eq!(page_property_path(&id, "p1", None, None), format!("/v1/pages/{DASHED}/properties/p1"));
    assert_eq!(
        page_property_path(&id, "p1", Some("cur"), Some(25)),
        format!("/v1/pages/{DASHED}/properties/p1?start_cursor=cur&page_size=25")
    );
}

#[test]
fn db_create_flags() {
    assert_eq!(usage(check_create_flags(None, None, false).unwrap_err()), "--parent-page required (or use --json)");
    assert_eq!(usage(check_create_flags(Some(HEX), None, true).unwrap_err()), "--title required (or use --json)");
    assert_eq!(usage(check_create_flags(Some(HEX), Some("T"), false).unwrap_err()), "--schema required (or use --json)");
    assert_eq!(check_create_flags(Some(HEX), Some("T"), true).unwrap().as_str(), DASHED);

    let parent = PageId::parse(HEX).unwrap();
    let props = vec![("Name".to_string(), PropertySchema { kind: "title".to_string(), definition: Value::Null })];
    let req = db_create(parent, "Tasks", props, Some("📋"), Some("not-a-url"), true);
    assert!(matches!(req.parent, CreateDatabaseParent::Page { .. }));
    assert_eq!(req.title[0].content, "Tasks");
    assert_eq!(req.cover.as_ref().unwrap().url, "not-a-url");
    assert_eq!(req.is_inline, Some(true));
    assert!(checked_create(req).is_ok());

    let parent = PageId::parse(HEX).unwrap();
    let req = db_create(parent, "Empty", vec![], None, None, false);
    assert_eq!(req.is_inline, None);
    assert_eq!(invalid(checked_create(req).unwrap_err()), "initial_data_source.properties must not be empty");
}

#[test]
fn db_update_flags() {
    let e = update_request(Some(HEX), true, None, None, None, false, None, false, None, None, None).unwrap_err();
    assert_eq!(usage(e), "--to-page and --to-workspace are mutually exclusive");
    let e = update_request(None, false, None, None, None, false, Some("file.png"), false, None, None, None).unwrap_err();
    assert_eq!(invalid(e), "--cover must be a URL (http:// or https://)");
    let r = update_request(None, true, Some("T"), None, Some("x"), true, Some("file.png"), true, None, Some(true), None).unwrap();
    assert!(matches!(r.parent, Some(DatabaseParentUpdate::Workspace { workspace: true })));
    assert_eq!(r.title.as_ref().unwrap()[0].content, "T");
    assert!(matches!(r.icon, Some(None)));
    assert!(matches!(r.cover, Some(None)));
    assert_eq!(r.is_locked, Some(true));
    let empty = update_request(None, false, None, None, None, false, None, false, None, None, None).unwrap();
    assert_eq!(usage(require_fields(empty).unwrap_err()), "no update fields provided — see --help");
    let mut some = UpdateDatabaseRequest::default();
    some.is_inline = Some(false);
    assert!(require_fields(some).is_ok());
}

#[test]
fn ds_create_and_colors() {
    let req = ds_create(HEX, Some(""), Ok(Value::Null)).unwrap();
    assert!(req.title.is_empty());
    assert_eq!(invalid(ds_create(HEX, None, Err("eof".to_string())).unwrap_err()), "--properties: eof");
    assert_eq!(parse_color(Some("blue")).unwrap(), Some(Color::Blue));
    assert_eq!(
        parse_color(Some("teal")).unwrap_err(),
        "'teal' is not a valid color: unknown variant `teal`, expected one of `default`, `gray`, `brown`, `orange`, `yellow`, `green`, `blue`, `purple`, `pink`, `red`"
    );
}

#[test]
fn ds_relation_plans() {
    assert_eq!(
        usage(resolve_relation(HEX, None, Some("B"), true, false).unwrap_err()),
        "exactly one of --backlink <name>, --one-way, or --self required"
    );
    assert_eq!(
        usage(resolve_relation(HEX, None, None, true, false).unwrap_err()),
        "--target <ds_id> required (unless --self)"
    );
    let other = "0123456789abcdef0123456789abcdef";
    assert_eq!(
        usage(resolve_relation(HEX, Some(other), None, false, true).unwrap_err()),
        "--self with --target set to a different id — drop --target or --self"
    );
    let plan = resolve_relation(HEX, None, None, false, true).unwrap();
    assert_eq!(plan.target.as_str(), plan.source.as_str());
    assert!(!plan.preflight);
    let plan = resolve_relation(HEX, Some(other), Some("Back"), false, false).unwrap();
    assert!(plan.preflight);
    assert_eq!(plan.direction, RelationDirection::Dual("Back".to_string()));
    let req = plan.request("Rel");
    assert_eq!(req.properties[0].0, "Rel");
}

#[test]
fn ds_update_commands() {
    let cmd = UpdateCmd::RemoveProperty { id: HEX.to_string(), name: "Old".to_string(), yes: false };
    let e = build_update(&cmd, UpdateInput::Confirmation(Ok(false))).unwrap_err();
    assert_eq!(
        invalid(e),
        "remove-property 'Old' is destructive; pass --yes to confirm (non-TTY) or answer 'y' at the interactive prompt"
    );
    let (id, req) = build_update(&cmd, UpdateInput::Confirmation(Ok(true))).unwrap();
    assert_eq!(id.as_str(), DASHED);
    assert!(matches!(req.properties[0].1, PropertyDelta::Remove));

    let cmd = UpdateCmd::AddOption {
        id: HEX.to_string(),
        property: "Status".to_string(),
        kind: SelectKindArg::Status,
        name: "Blocked".to_string(),
        color: Some("red".to_string()),
    };
    let (_, req) = build_update(&cmd, UpdateInput::Nothing).unwrap();
    match &req.properties[0].1 {
        PropertyDelta::AddOption { kind, option } => {
            assert_eq!(*kind, SelectKind::Status);
            assert_eq!(option.color, Some(Color::Red));
            assert!(option.id.is_none());
        }
        other => panic!("unexpected {other:?}"),
    }

    let cmd = UpdateCmd::RenameProperty { id: "bad".to_string(), from: "a".to_string(), to: "b".to_string() };
    assert_eq!(
        invalid(build_update(&cmd, UpdateInput::Nothing).unwrap_err()),
        "data source id: invalid Notion ID: expected 32 hex digits or a dashed UUID"
    );
    let cmd = UpdateCmd::AddProperty { id: HEX.to_string(), name: "N".to_string(), schema: "{".to_string() };
    assert_eq!(invalid(build_update(&cmd, UpdateInput::Schema(Err("eof".to_string()))).unwrap_err()), "--schema: eof");
}

#[test]
fn comment_targets_and_bodies() {
    assert_eq!(usage(list_target(None, None).unwrap_err()), "exactly one of --on-page or --on-block required");
    assert_eq!(list_target(Some(HEX), None).unwrap().as_str(), DASHED);
    assert_eq!(invalid(list_target(None, Some("x")).unwrap_err()), "--on-block: invalid Notion ID: expected 32 hex digits or a dashed UUID");
    let req = comment_request(None, Some("disc-1"), "hello").unwrap();
    assert!(req.parent.is_none());
    assert_eq!(req.discussion_id.as_deref(), Some("disc-1"));
    assert_eq!(req.rich_text[0].content, "hello");
    let req = comment_request(Some(HEX), None, "hi").unwrap();
    assert_eq!(req.parent.unwrap().page_id.as_str(), DASHED);
    assert_eq!(
        usage(comment_request(Some(HEX), Some("d"), "x").unwrap_err()),
        "exactly one of --on-page or --in-discussion required"
    );
}

#[test]
fn users_filter_and_id() {
    assert_eq!(filter_label(true, true), "bot_only");
    assert_eq!(filter_label(false, true), "human_only");
    assert_eq!(filter_label(false, false), "none");
    assert_eq!(user_id_arg(HEX).unwrap().as_str(), DASHED);
    assert_eq!(invalid(user_id_arg("u").unwrap_err()), "user id: invalid Notion ID: expected 32 hex digits or a dashed UUID");
}

#[test]
fn search_body() {
    let args = SearchArgs { query: Some("q".to_string()), filter: None, sort: None, start_cursor: None, page_size: Some(5) };
    let req = search_request(&args, Some(Ok(Value::Bool(true))), None).unwrap();
    assert_eq!(req.query.as_deref(), Some("q"));
    assert_eq!(req.filter, Some(Value::Bool(true)));
    assert!(req.sort.is_none());
    assert_eq!(req.page_size, Some(5));
    let e = search_request(&args, Some(Err("f".to_string())), Some(Err("s".to_string()))).unwrap_err();
    assert_eq!(invalid(e), "--filter: f");
    let e = search_request(&args, None, Some(Err("s".to_string()))).unwrap_err();
    assert_eq!(invalid(e), "--sort: s");
}

#[test]
fn mcp_tier_selection() {
    let args = |w, a| McpArgs { allow_write: w, allow_admin: a, audit_log: None, admin_log: None };
    assert_eq!(args(false, false).tier(), McpTier::ReadOnly);
    assert_eq!(args(true, false).tier(), McpTier::Write);
    assert_eq!(args(true, true).tier(), McpTier::Admin);
    assert_eq!(args(false, true).tier(), McpTier::Admin);
}

#[test]
fn global_flags() {
    let cli = Cli {
        check_request: true,
        raw: true,
        pretty: false,
        token: None,
        cmd: Command::Search(SearchArgs { query: None, filter: None, sort: None, start_cursor: None, page_size: None }),
    };
    let o = cli.output_options();
    assert!(o.raw && !o.pretty);
    match cli.require_token().unwrap_err() {
        CliError::Config(m) => assert_eq!(m, "missing NOTION_TOKEN (set env var or pass --token)"),
        other => panic!("unexpected {other:?}"),
    }
    let cli = Cli { token: Some("ntn_secret".to_string()), ..cli };
    assert_eq!(cli.require_token().unwrap(), "ntn_secret");
}

#[test]
fn json_body_text() {
    let v = parse_json_body("{\"a\": [1, 2]}").unwrap();
    assert_eq!(v["a"][1], Value::from(2));
    let e = parse_json_body("{\"a\": ").unwrap_err();
    assert!(invalid(e).starts_with("--json body: not valid JSON: "));
}

#[test]
fn destructive_confirmation() {
    assert_eq!(confirm_prompt("remove property 'X'"), "About to remove property 'X'. Proceed? [y/N]: ");
    assert!(confirms("y\n"));
    assert!(confirms("  Yes please"));
    assert!(!confirms("n"));
    assert!(!confirms("   \n"));
    assert!(!confirms(""));
}

#[test]
fn block_bodies() {
    let (id, req) = block_append(HEX, Ok(vec![Value::Null, Value::Null]), Some(HEX)).unwrap();
    assert_eq!(id.as_str(), DASHED);
    assert_eq!(req.children.len(), 2);
    assert_eq!(req.after.unwrap().as_str(), DASHED);
    assert_eq!(invalid(block_append("x", Ok(vec![]), None).unwrap_err()), "block id: invalid Notion ID: expected 32 hex digits or a dashed UUID");
    assert_eq!(invalid(block_append(HEX, Err("eof".to_string()), None).unwrap_err()), "--children: eof");
    assert_eq!(
        invalid(block_append(HEX, Ok(vec![]), Some("a b")).unwrap_err()),
        "--after: invalid Notion ID: contains whitespace, control or non-ASCII characters"
    );
    let (_, req) = block_update(HEX, Some(Ok(Value::Bool(false))), None, Some(true)).unwrap();
    assert_eq!(req.body, Some(Value::Bool(false)));
    assert_eq!(req.in_trash, Some(true));
    assert_eq!(invalid(block_update(HEX, Some(Err("bad".to_string())), None, None).unwrap_err()), "--body: bad");
}

#[test]
fn ds_query_body() {
    let (id, req) = ds_query(HEX, Some(Ok(Value::Null)), None, Some("c".to_string()), Some(10)).unwrap();
    assert_eq!(id.as_str(), DASHED);
    assert_eq!(req.filter, Some(Value::Null));
    assert!(req.sorts.is_empty());
    assert_eq!(req.start_cursor.as_deref(), Some("c"));
    assert_eq!(invalid(ds_query(HEX, Some(Err("f".to_string())), Some(Err("s".to_string())), None, None).unwrap_err()), "--filter: f");
    assert_eq!(invalid(ds_query(HEX, None, Some(Err("s".to_string())), None, None).unwrap_err()), "--sorts: s");
}
