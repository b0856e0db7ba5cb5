//! `notion-cli ds *` — data source commands: arguments, and the
//! requests they build before anything is sent.

use vstd::prelude::*;

use crate::api::data_source::{
    bulk_not_object_message, bulk_request, single_delta, title_from, BulkBody, CreateDataSourceParent, CreateDataSourceRequest,
    PropertyDelta, QueryDataSourceRequest, RelationDirection, SelectKind, UpdateDataSourceRequest,
};
use crate::cli::error::CliError;
use crate::cli::ids::{data_source_id_arg, database_id_arg, labelled};
use crate::text::{chars_of, concat, owned, trim, trimmed};
use crate::types::{color_name, Color, PropertySchema, SelectOption};
use crate::validation::{url_or_id, DataSourceId};

verus! {

#[derive(Debug)]
pub enum DsCmd {
    /// Retrieve a data source (schema + metadata).
    Get { id: String },
    /// Query pages inside a data source.
    Query {
        id: String,
        filter: Option<String>,
        sorts: Option<String>,
        start_cursor: Option<String>,
        page_size: Option<u8>,
    },
    /// Create a new data source inside an existing database.
    Create { parent: String, title: Option<String>, properties: String },
    /// Mutate a data source's schema (one delta per invocation).
    Update(UpdateCmd),
    /// Add a relation property.
    AddRelation {
        id: String,
        name: String,
        target: Option<String>,
        backlink: Option<String>,
        one_way: bool,
        self_: bool,
    },
}

#[derive(Debug)]
pub enum UpdateCmd {
    /// Add a new property (schema as inline JSON).
    AddProperty { id: String, name: String, schema: String },
    /// Remove a property. Destructive.
    RemoveProperty { id: String, name: String, yes: bool },
    /// Rename a property.
    RenameProperty { id: String, from: String, to: String },
    /// Append an option to a select / multi-select / status property.
    AddOption {
        id: String,
        property: String,
        kind: SelectKindArg,
        name: String,
        color: Option<String>,
    },
    /// Bulk update from a JSON file (non-atomic).
    Bulk { id: String, body: std::path::PathBuf },
}

#[derive(Debug, Clone, Copy, PartialEq, Eq, Structural)]
pub enum SelectKindArg {
    Select,
    MultiSelect,
    Status,
}

impl From<SelectKindArg> for SelectKind {
    fn from(k: SelectKindArg) -> (r: SelectKind) {
        match k {
            SelectKindArg::Select => SelectKind::Select,
            SelectKindArg::MultiSelect => SelectKind::MultiSelect,
            SelectKindArg::Status => SelectKind::Status,
        }
    }
}

impl vstd::std_specs::convert::FromSpecImpl<SelectKindArg> for SelectKind {
    open spec fn obeys_from_spec() -> bool {
        true
    }

    open spec fn from_spec(k: SelectKindArg) -> SelectKind {
        match k {
            SelectKindArg::Select => SelectKind::Select,
            SelectKindArg::MultiSelect => SelectKind::MultiSelect,
            SelectKindArg::Status => SelectKind::Status,
        }
    }
}

pub open spec fn kind_of_arg(k: SelectKindArg) -> SelectKind {
    match k {
        SelectKindArg::Select => SelectKind::Select,
        SelectKindArg::MultiSelect => SelectKind::MultiSelect,
        SelectKindArg::Status => SelectKind::Status,
    }
}

/// A data source id argument (`data source id: …` when refused).
pub fn parse_ds_id(s: &str) -> (r: Result<DataSourceId, CliError>)
    ensures
        match r {
            Ok(id) => url_or_id(s@) == Some(id@),
            Err(e) => url_or_id(s@) is None && (e matches CliError::Validation(m) && m@ == labelled(
                "data source id"@,
                s@,
            )),
        },
{
    data_source_id_arg(s, "data source id")
}

pub open spec fn color_error(c: Seq<char>) -> Seq<char> {
    "'"@ + c + "' is not a valid color: unknown variant `"@ + c
        + "`, expected one of `default`, `gray`, `brown`, `orange`, `yellow`, `green`, `blue`, `purple`, `pink`, `red`"@
}

/// The `--color` flag: absent, a known colour, or refused.
pub fn parse_color(c: Option<&str>) -> (r: Result<Option<Color>, String>)
    ensures
        c is None ==> r == Ok::<Option<Color>, String>(None),
        c matches Some(s) ==> match r {
            Ok(Some(k)) => color_name(k) == s@,
            Ok(None) => false,
            Err(m) => (forall|k: Color| color_name(k) != s@) && m@ == color_error(s@),
        },
{
    match c {
        None => Ok(None),
        Some(s) => match Color::from_name(s) {
            Some(k) => Ok(Some(k)),
            None => {
                let mut m = concat("'", s);
                m.append("' is not a valid color: unknown variant `");
                m.append(s);
                m.append(
                    "`, expected one of `default`, `gray`, `brown`, `orange`, `yellow`, `green`, `blue`, `purple`, `pink`, `red`",
                );
                Err(m)
            },
        },
    }
}

// === ds create ============================================================

/// The `ds create` request: parent id first, then the properties JSON
/// (as the caller parsed it: the value, or the parser's message).
pub fn create_request(
    parent: &str,
    title: Option<&str>,
    properties: Result<serde_json::Value, String>,
) -> (r: Result<CreateDataSourceRequest, CliError>)
    ensures
        url_or_id(parent@) is None ==> (r matches Err(CliError::Validation(m)) && m@ == labelled(
            "--parent"@,
            parent@,
        )),
        url_or_id(parent@) is Some ==> match properties {
            Err(e) => r matches Err(CliError::Validation(m)) && m@ == "--properties: "@ + e@,
            Ok(v) => r matches Ok(req) && req.properties == v && (req.parent matches CreateDataSourceParent::Database {
                database_id,
            } && url_or_id(parent@) == Some(database_id@)) && match title {
                Some(t) if t@.len() > 0 => req.title@.len() == 1 && req.title@[0].content@ == t@,
                _ => req.title@.len() == 0,
            },
        },
{
    let db_id = database_id_arg(parent, "--parent")?;
    let props = match properties {
        Ok(v) => v,
        Err(e) => {
            return Err(CliError::Validation(concat("--properties: ", e.as_str())));
        },
    };
    Ok(CreateDataSourceRequest {
        parent: CreateDataSourceParent::database(db_id),
        title: title_from(title),
        properties: props,
    })
}

// === ds add-relation ======================================================

pub open spec fn direction_count(backlink: Option<&str>, one_way: bool, self_: bool) -> int {
    (if backlink is Some { 1int } else { 0int }) + (if one_way { 1int } else { 0int }) + (if self_ {
        1int
    } else {
        0int
    })
}

pub open spec fn direction_usage_message() -> Seq<char> {
    "exactly one of --backlink <name>, --one-way, or --self required"@
}

pub open spec fn self_conflict_message() -> Seq<char> {
    "--self with --target set to a different id — drop --target or --self"@
}

pub open spec fn target_required_message() -> Seq<char> {
    "--target <ds_id> required (unless --self)"@
}

/// The resolved pieces of `ds add-relation`.
#[derive(Debug)]
pub struct RelationPlan {
    pub source: DataSourceId,
    pub target: DataSourceId,
    pub direction: RelationDirection,
    /// Whether the target must be fetched first (skipped for `--self`).
    pub preflight: bool,
}

/// Resolve `ds add-relation` arguments: exactly one direction flag; the
/// target is the source itself with `--self` (a `--target` must then
/// name the same data source), else the required `--target`.
pub fn resolve_relation(
    src_id: &str,
    target: Option<&str>,
    backlink: Option<&str>,
    one_way: bool,
    self_: bool,
) -> (r: Result<RelationPlan, CliError>)
    ensures
        direction_count(backlink, one_way, self_) != 1 ==> (r matches Err(CliError::Usage(m))
            && m@ == direction_usage_message()),
        direction_count(backlink, one_way, self_) == 1 && url_or_id(src_id@) is None ==> (
        r matches Err(CliError::Validation(m)) && m@ == labelled("data source id"@, src_id@)),
        r matches Ok(p) ==> {
            &&& direction_count(backlink, one_way, self_) == 1
            &&& url_or_id(src_id@) == Some(p.source@)
            &&& p.preflight == !self_
            &&& (self_ && target is None ==> p.target@ == p.source@)
            &&& (target matches Some(t) ==> url_or_id(t@) == Some(p.target@))
            &&& (self_ ==> p.target@ == p.source@)
            &&& (backlink matches Some(b) ==> (p.direction matches RelationDirection::Dual(n)
                && n@ == b@))
            &&& (backlink is None ==> p.direction == RelationDirection::OneWay)
        },
        direction_count(backlink, one_way, self_) == 1 && url_or_id(src_id@) is Some ==> match target {
            Some(t) => match url_or_id(t@) {
                None => r matches Err(CliError::Validation(m)) && m@ == labelled("--target"@, t@),
                Some(tid) => (self_ && tid != url_or_id(src_id@)->0) ==> (r matches Err(
                    CliError::Usage(m),
                ) && m@ == self_conflict_message()),
            },
            None => !self_ ==> (r matches Err(CliError::Usage(m)) && m@
                == target_required_message()),
        },
        direction_count(backlink, one_way, self_) == 1 && url_or_id(src_id@) is Some && (
        target matches Some(t) ==> url_or_id(t@) is Some && (self_ ==> url_or_id(t@) == url_or_id(
            src_id@,
        ))) && (target is None ==> self_) ==> r is Ok,
{
    let count: u8 = (if backlink.is_some() { 1u8 } else { 0u8 }) + (if one_way { 1u8 } else { 0u8 })
        + (if self_ { 1u8 } else { 0u8 });
    if count != 1 {
        return Err(CliError::Usage(owned("exactly one of --backlink <name>, --one-way, or --self required")));
    }
    let src = parse_ds_id(src_id)?;
    let target_ds = if self_ {
        match target {
            Some(t) => {
                let parsed = data_source_id_arg(t, "--target")?;
                if !parsed.same_as(&src) {
                    return Err(CliError::Usage(owned("--self with --target set to a different id — drop --target or --self")));
                }
                parsed
            },
            None => src.duplicate(),
        }
    } else {
        match target {
            Some(t) => data_source_id_arg(t, "--target")?,
            None => {
                return Err(CliError::Usage(owned("--target <ds_id> required (unless --self)")));
            },
        }
    };
    let direction = match backlink {
        Some(b) => RelationDirection::Dual(owned(b)),
        None => RelationDirection::OneWay,
    };
    Ok(RelationPlan { source: src, target: target_ds, direction, preflight: !self_ })
}

impl RelationPlan {
    /// The update request of the plan.
    pub fn request(&self, name: &str) -> (r: UpdateDataSourceRequest)
        ensures
            single_delta(r, name@),
            r.properties@[0].1 matches PropertyDelta::Relation { target, direction } && target@
                == self.target@ && direction.reciprocal() == self.direction.reciprocal(),
    {
        UpdateDataSourceRequest::add_relation_property(
            name,
            self.target.duplicate(),
            self.direction.duplicate(),
        )
    }
}

// === ds update =============================================================

/// What `build_update` needs from outside the library, per command.
#[derive(Debug)]
pub enum UpdateInput {
    /// Nothing (rename, add-option, or remove with `--yes`).
    Nothing,
    /// Remove without `--yes`: the interactive confirmation's outcome
    /// (`Ok(false)` when stdin is not a terminal).
    Confirmation(Result<bool, CliError>),
    /// Add-property: the `--schema` JSON as parsed, or the parser's message.
    Schema(Result<PropertySchema, String>),
    /// Bulk: the body file as read and parsed, or the error that stopped it.
    Bulk(Result<BulkBody, CliError>),
}

/// Which input each command takes.
pub open spec fn input_fits(cmd: UpdateCmd, input: UpdateInput) -> bool {
    match cmd {
        UpdateCmd::AddProperty { .. } => input is Schema,
        UpdateCmd::RemoveProperty { yes, .. } => if yes {
            input is Nothing
        } else {
            input is Confirmation
        },
        UpdateCmd::Bulk { .. } => input is Bulk,
        _ => input is Nothing,
    }
}

pub open spec fn destructive_message(name: Seq<char>) -> Seq<char> {
    "remove-property '"@ + name
        + "' is destructive; pass --yes to confirm (non-TTY) or answer 'y' at the interactive prompt"@
}

pub open spec fn update_id(cmd: UpdateCmd) -> Seq<char> {
    match cmd {
        UpdateCmd::AddProperty { id, .. } => id@,
        UpdateCmd::RemoveProperty { id, .. } => id@,
        UpdateCmd::RenameProperty { id, .. } => id@,
        UpdateCmd::AddOption { id, .. } => id@,
        UpdateCmd::Bulk { id, .. } => id@,
    }
}

/// Whether a remove was confirmed (by `--yes` or at the prompt).
pub open spec fn removal_refused(cmd: UpdateCmd, input: UpdateInput) -> bool {
    cmd matches UpdateCmd::RemoveProperty { yes, .. } && !yes && input matches UpdateInput::Confirmation(
        Ok(false),
    )
}

/// The inputs on which `ds update` builds its request: a valid id, and
/// per command a parsed schema, a confirmed removal, a known colour, or
/// a bulk body that was read and is an object with a readable title.
pub open spec fn update_succeeds(cmd: UpdateCmd, input: UpdateInput) -> bool {
    url_or_id(update_id(cmd)) is Some && match cmd {
        UpdateCmd::AddProperty { .. } => input matches UpdateInput::Schema(Ok(_)),
        UpdateCmd::RemoveProperty { yes, .. } => yes || input matches UpdateInput::Confirmation(
            Ok(true),
        ),
        UpdateCmd::RenameProperty { .. } => true,
        UpdateCmd::AddOption { color, .. } => match color {
            Some(c) => exists|k: Color| color_name(k) == c@,
            None => true,
        },
        UpdateCmd::Bulk { .. } => input matches UpdateInput::Bulk(Ok(b)) && b.is_object && !(
        b.title matches Some(Err(_))),
    }
}

/// Build the `ds update` request: the data source id and the single
/// delta, or the first error in the command's order of checks.
pub fn build_update(cmd: &UpdateCmd, input: UpdateInput) -> (r: Result<
    (DataSourceId, UpdateDataSourceRequest),
    CliError,
>)
    requires
        input_fits(*cmd, input),
    ensures
        removal_refused(*cmd, input) ==> (r matches Err(CliError::Validation(m)) && (
        cmd matches UpdateCmd::RemoveProperty { name, .. } && m@ == destructive_message(name@))),
        input matches UpdateInput::Confirmation(Err(e)) ==> r == Err::<
            (DataSourceId, UpdateDataSourceRequest),
            CliError,
        >(e),
        !removal_refused(*cmd, input) && !(input matches UpdateInput::Confirmation(Err(_)))
            && url_or_id(update_id(*cmd)) is None ==> (r matches Err(CliError::Validation(m))
            && m@ == labelled("data source id"@, update_id(*cmd))),
        url_or_id(update_id(*cmd)) is Some ==> (input matches UpdateInput::Schema(Err(e)) ==> (
        r matches Err(CliError::Validation(m)) && m@ == "--schema: "@ + e@)),
        url_or_id(update_id(*cmd)) is Some ==> (input matches UpdateInput::Bulk(Err(e)) ==> r
            == Err::<(DataSourceId, UpdateDataSourceRequest), CliError>(e)),
        url_or_id(update_id(*cmd)) is Some ==> (input matches UpdateInput::Bulk(Ok(b)) ==> (
        !b.is_object ==> (r matches Err(CliError::Validation(m)) && m@ == "bulk: "@
            + bulk_not_object_message()))),
        url_or_id(update_id(*cmd)) is Some ==> (input matches UpdateInput::Bulk(Ok(b)) ==> (
        b.is_object ==> (b.title matches Some(Err(e)) ==> (r matches Err(CliError::Validation(m))
            && m@ == "bulk: "@ + "title: "@ + e@)))),
        url_or_id(update_id(*cmd)) is Some ==> (cmd matches UpdateCmd::AddOption { color, .. } ==> (
        color matches Some(c) ==> ((forall|k: Color| color_name(k) != c@) ==> (r matches Err(
            CliError::Validation(m),
        ) && m@ == "--color: "@ + color_error(c@))))),
        update_succeeds(*cmd, input) ==> r is Ok,
        r matches Ok((id, req)) ==> url_or_id(update_id(*cmd)) == Some(id@) && match *cmd {
            UpdateCmd::AddProperty { name, .. } => single_delta(req, name@) && (
            input matches UpdateInput::Schema(Ok(s)) && req.properties@[0].1 == PropertyDelta::Define(
                s.definition,
            )),
            UpdateCmd::RemoveProperty { name, .. } => single_delta(req, name@)
                && req.properties@[0].1 == PropertyDelta::Remove,
            UpdateCmd::RenameProperty { from, to, .. } => single_delta(req, from@) && (
            req.properties@[0].1 matches PropertyDelta::Rename(n) && n@ == to@),
            UpdateCmd::AddOption { property, kind, name, color, .. } => single_delta(req, property@)
                && (req.properties@[0].1 matches PropertyDelta::AddOption { kind: k, option }
                && k == kind_of_arg(kind) && option.id is None && option.name@ == name@ && match color {
                Some(c) => option.color matches Some(col) && color_name(col) == c@,
                None => option.color is None,
            }),
            UpdateCmd::Bulk { .. } => input matches UpdateInput::Bulk(Ok(b)) && bulk_request(b, req),
        },
{
    match cmd {
        UpdateCmd::AddProperty { id, name, schema: _ } => {
            let ds_id = parse_ds_id(id.as_str())?;
            match input {
                UpdateInput::Schema(Ok(parsed)) => {
                    let req = UpdateDataSourceRequest::add_property(name.as_str(), &parsed);
                    Ok((ds_id, req))
                },
                UpdateInput::Schema(Err(e)) => Err(
                    CliError::Validation(concat("--schema: ", e.as_str())),
                ),
                _ => vstd::pervasive::unreached(),
            }
        },
        UpdateCmd::RemoveProperty { id, name, yes } => {
            if !*yes {
                let confirmed = match input {
                    UpdateInput::Confirmation(Ok(c)) => c,
                    UpdateInput::Confirmation(Err(e)) => {
                        return Err(e);
                    },
                    _ => vstd::pervasive::unreached(),
                };
                if !confirmed {
                    let mut m = concat("remove-property '", name.as_str());
                    m.append(
                        "' is destructive; pass --yes to confirm (non-TTY) or answer 'y' at the interactive prompt",
                    );
                    return Err(CliError::Validation(m));
                }
            }
            let ds_id = parse_ds_id(id.as_str())?;
            Ok((ds_id, UpdateDataSourceRequest::remove_property(name.as_str())))
        },
        UpdateCmd::RenameProperty { id, from, to } => {
            let ds_id = parse_ds_id(id.as_str())?;
            Ok((ds_id, UpdateDataSourceRequest::rename_property(from.as_str(), to.as_str())))
        },
        UpdateCmd::AddOption { id, property, kind, name, color } => {
            let ds_id = parse_ds_id(id.as_str())?;
            let color_arg: Option<&str> = match color {
                Some(c) => Some(c.as_str()),
                None => None,
            };
            let parsed_color = match parse_color(color_arg) {
                Ok(c) => c,
                Err(e) => {
                    return Err(CliError::Validation(concat("--color: ", e.as_str())));
                },
            };
            let option = SelectOption { id: None, name: name.clone(), color: parsed_color };
            let req = UpdateDataSourceRequest::add_option(
                property.as_str(),
                SelectKind::from(*kind),
                option,
            );
            Ok((ds_id, req))
        },
        UpdateCmd::Bulk { id, body: _ } => {
            let ds_id = parse_ds_id(id.as_str())?;
            let bulk = match input {
                UpdateInput::Bulk(Ok(b)) => b,
                UpdateInput::Bulk(Err(e)) => {
                    return Err(e);
                },
                _ => vstd::pervasive::unreached(),
            };
            match UpdateDataSourceRequest::from_bulk(bulk) {
                Ok(req) => Ok((ds_id, req)),
                Err(e) => Err(CliError::Validation(concat("bulk: ", e.as_str()))),
            }
        },
    }
}

/// The question asked before a destructive change.
pub fn confirm_prompt(action: &str) -> (p: String)
    ensures
        p@ == "About to "@ + action@ + ". Proceed? [y/N]: "@,
{
    let mut p = concat("About to ", action);
    p.append(". Proceed? [y/N]: ");
    p
}

/// An answer confirms when, trimmed, it starts with `y` or `Y`.
pub open spec fn confirms_spec(answer: Seq<char>) -> bool {
    let t = trimmed(answer);
    t.len() > 0 && (t[0] == 'y' || t[0] == 'Y')
}

pub fn confirms(answer: &str) -> (b: bool)
    ensures
        b == confirms_spec(answer@),
{
    let t = trim(answer);
    let v = chars_of(t.as_str());
    v.len() > 0 && (v[0] == 'y' || v[0] == 'Y')
}

/// The target and body of `ds query`: the data source id, then the
/// parsed `--filter` and `--sorts` (`None` when absent; no sorts then).
pub fn query_request(
    id: &str,
    filter: Option<Result<serde_json::Value, String>>,
    sorts: Option<Result<Vec<serde_json::Value>, String>>,
    start_cursor: Option<String>,
    page_size: Option<u8>,
) -> (r: Result<(DataSourceId, QueryDataSourceRequest), CliError>)
    ensures
        url_or_id(id@) is None ==> (r matches Err(CliError::Validation(m)) && m@ == labelled(
            "data source id"@,
            id@,
        )),
        filter matches Some(Err(e)) ==> (url_or_id(id@) is Some ==> (r matches Err(
            CliError::Validation(m),
        ) && m@ == "--filter: "@ + e@)),
        sorts matches Some(Err(e)) ==> (url_or_id(id@) is Some && !(filter matches Some(Err(_)))
            ==> (r matches Err(CliError::Validation(m)) && m@ == "--sorts: "@ + e@)),
        url_or_id(id@) is Some && !(filter matches Some(Err(_))) && !(sorts matches Some(Err(_)))
            ==> (r matches Ok((ds, req)) && Some(ds@) == url_or_id(id@) && req.start_cursor
            == start_cursor && req.page_size == page_size && (filter matches Some(Ok(f))
            ==> req.filter == Some(f)) && (filter is None ==> req.filter is None) && (
        sorts matches Some(Ok(ss)) ==> req.sorts@ == ss@) && (sorts is None ==> req.sorts@.len()
            == 0)),
{
    let ds = parse_ds_id(id)?;
    let filter_val = match filter {
        None => None,
        Some(Ok(f)) => Some(f),
        Some(Err(e)) => {
            return Err(CliError::Validation(concat("--filter: ", e.as_str())));
        },
    };
    let sorts_vec = match sorts {
        None => Vec::new(),
        Some(Ok(ss)) => ss,
        Some(Err(e)) => {
            return Err(CliError::Validation(concat("--sorts: ", e.as_str())));
        },
    };
    Ok((ds, QueryDataSourceRequest { filter: filter_val, sorts: sorts_vec, start_cursor, page_size }))
}

} // verus!
