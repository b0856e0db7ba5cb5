//! `/v1/data_sources/*` request bodies and paths.
//!
//! Data sources live under `/v1/data_sources` on API 2025-09-03 and
//! later (not under `/v1/databases/…`).

use vstd::prelude::*;

use crate::text::{chars_of, concat, owned, text_eq};
use crate::types::{PropertySchema, RichText, SelectOption};
use crate::validation::{DataSourceId, DatabaseId};

verus! {

// === Create ================================================================

/// Parent of a new data source: its database container.
#[derive(Debug)]
pub enum CreateDataSourceParent {
    Database { database_id: DatabaseId },
}

impl CreateDataSourceParent {
    pub fn database(id: DatabaseId) -> (p: Self)
        ensures
            p == (CreateDataSourceParent::Database { database_id: id }),
    {
        CreateDataSourceParent::Database { database_id: id }
    }
}

/// Body of `POST /v1/data_sources`; the property schema map is passed
/// through as JSON.
#[derive(Debug)]
pub struct CreateDataSourceRequest {
    pub parent: CreateDataSourceParent,
    pub title: Vec<RichText>,
    pub properties: serde_json::Value,
}

/// The title array for an optional plain-text title: empty when the
/// title is absent or empty, else one run.
pub fn title_from(title: Option<&str>) -> (v: Vec<RichText>)
    ensures
        match title {
            Some(t) if t@.len() > 0 => v@.len() == 1 && v@[0].content@ == t@,
            _ => v@.len() == 0,
        },
{
    match title {
        Some(t) => {
            if t.unicode_len() > 0 {
                RichText::plain(t)
            } else {
                Vec::new()
            }
        },
        None => Vec::new(),
    }
}

// === Update ================================================================

/// Direction of a relation property: one-way (`single_property`) or
/// two-way (`dual_property`, with the name of the reciprocal property
/// Notion creates on the target).
#[derive(Debug, Clone, PartialEq, Eq)]
pub enum RelationDirection {
    OneWay,
    Dual(String),
}

impl RelationDirection {
    /// The reciprocal property's name, if the relation is two-way.
    pub open spec fn reciprocal(self) -> Option<Seq<char>> {
        match self {
            RelationDirection::OneWay => None,
            RelationDirection::Dual(n) => Some(n@),
        }
    }

    /// A copy of this direction.
    pub fn duplicate(&self) -> (r: Self)
        ensures
            r.reciprocal() == self.reciprocal(),
    {
        match self {
            RelationDirection::OneWay => RelationDirection::OneWay,
            RelationDirection::Dual(n) => RelationDirection::Dual(n.clone()),
        }
    }
}

/// Property kinds that have an option list.
#[derive(Debug, Clone, Copy, PartialEq, Eq, Structural)]
pub enum SelectKind {
    Select,
    MultiSelect,
    Status,
}

pub open spec fn wire_key_spec(k: SelectKind) -> Seq<char> {
    match k {
        SelectKind::Select => "select"@,
        SelectKind::MultiSelect => "multi_select"@,
        SelectKind::Status => "status"@,
    }
}

pub open spec fn unknown_kind_message(s: Seq<char>) -> Seq<char> {
    "unknown option-capable kind '"@ + s + "' (expected select, multi_select, status)"@
}

impl SelectKind {
    /// The wire discriminator.
    pub fn wire_key(self) -> (s: &'static str)
        ensures
            s@ == wire_key_spec(self),
    {
        match self {
            SelectKind::Select => "select",
            SelectKind::MultiSelect => "multi_select",
            SelectKind::Status => "status",
        }
    }

    /// Parse the wire discriminator.
    pub fn parse(s: &str) -> (r: Result<SelectKind, String>)
        ensures
            match r {
                Ok(k) => wire_key_spec(k) == s@,
                Err(m) => (forall|k: SelectKind| wire_key_spec(k) != s@) && m@
                    == unknown_kind_message(s@),
            },
    {
        if text_eq(s, "select") {
            Ok(SelectKind::Select)
        } else if text_eq(s, "multi_select") {
            Ok(SelectKind::MultiSelect)
        } else if text_eq(s, "status") {
            Ok(SelectKind::Status)
        } else {
            let mut m = concat("unknown option-capable kind '", s);
            m.append("' (expected select, multi_select, status)");
            Err(m)
        }
    }
}

/// The change a schema update makes to one property.
#[derive(Debug)]
pub enum PropertyDelta {
    /// Add or redefine the property with this full schema.
    Define(serde_json::Value),
    /// Remove the property (sent as JSON `null`).
    Remove,
    /// Rename the property (`{"name": …}`).
    Rename(String),
    /// Append an option (`{"type": kind, kind: {"options": [option]}}`);
    /// Notion merges options by name.
    AddOption { kind: SelectKind, option: SelectOption },
    /// Add a relation to the target data source.
    Relation { target: DataSourceId, direction: RelationDirection },
    /// A caller-supplied delta, sent verbatim.
    Verbatim(serde_json::Value),
}

/// Body of `PATCH /v1/data_sources/{id}`: property name → delta.
#[derive(Debug)]
pub struct UpdateDataSourceRequest {
    pub title: Option<Vec<RichText>>,
    pub properties: Vec<(String, PropertyDelta)>,
    pub archived: Option<bool>,
    pub in_trash: Option<bool>,
}

/// A request that changes exactly one property and nothing else.
pub open spec fn single_delta(r: UpdateDataSourceRequest, name: Seq<char>) -> bool {
    &&& r.title is None
    &&& r.archived is None
    &&& r.in_trash is None
    &&& r.properties@.len() == 1
    &&& r.properties@[0].0@ == name
}

impl Default for UpdateDataSourceRequest {
    fn default() -> (r: Self)
        ensures
            r.title is None,
            r.properties@.len() == 0,
            r.archived is None,
            r.in_trash is None,
    {
        UpdateDataSourceRequest {
            title: None,
            properties: Vec::new(),
            archived: None,
            in_trash: None,
        }
    }
}

/// What a `--bulk` body holds, as read from its JSON object.
#[derive(Debug)]
pub struct BulkBody {
    /// Whether the body was a JSON object at all.
    pub is_object: bool,
    /// `title`, when present: its rich-text array, or why it did not parse.
    pub title: Option<Result<Vec<RichText>, String>>,
    /// `properties`, when present and an object.
    pub properties: Option<Vec<(String, serde_json::Value)>>,
    /// `archived`, when present and a boolean.
    pub archived: Option<bool>,
    /// `in_trash`, when present and a boolean.
    pub in_trash: Option<bool>,
}

/// `req` takes the bulk body verbatim: its title, flags and property
/// deltas, in order.
pub open spec fn bulk_request(body: BulkBody, req: UpdateDataSourceRequest) -> bool {
    &&& (body.title matches Some(Ok(t)) ==> req.title == Some(t))
    &&& (body.title is None ==> req.title is None)
    &&& req.archived == body.archived
    &&& req.in_trash == body.in_trash
    &&& (body.properties is None ==> req.properties@.len() == 0)
    &&& (body.properties matches Some(ps) ==> req.properties@.len() == ps@.len() && (forall|i: int|
        0 <= i < ps@.len() ==> (#[trigger] req.properties@[i]).0 == ps@[i].0
            && req.properties@[i].1 == PropertyDelta::Verbatim(ps@[i].1)))
}

pub open spec fn bulk_not_object_message() -> Seq<char> {
    "bulk body must be a JSON object"@
}

impl UpdateDataSourceRequest {
    fn one(name: &str, delta: PropertyDelta) -> (r: Self)
        ensures
            single_delta(r, name@),
            r.properties@[0].1 == delta,
    {
        let mut properties: Vec<(String, PropertyDelta)> = Vec::new();
        properties.push((owned(name), delta));
        UpdateDataSourceRequest { title: None, properties, archived: None, in_trash: None }
    }

    /// Add (or redefine) one property.
    pub fn add_property(name: &str, schema: &PropertySchema) -> (r: Self)
        ensures
            single_delta(r, name@),
            r.properties@[0].1 == PropertyDelta::Define(schema.definition),
    {
        Self::one(name, PropertyDelta::Define(schema.definition.clone()))
    }

    /// Remove one property.
    pub fn remove_property(name: &str) -> (r: Self)
        ensures
            single_delta(r, name@),
            r.properties@[0].1 == PropertyDelta::Remove,
    {
        Self::one(name, PropertyDelta::Remove)
    }

    /// Rename one property.
    pub fn rename_property(old_name: &str, new_name: &str) -> (r: Self)
        ensures
            single_delta(r, old_name@),
            r.properties@[0].1 matches PropertyDelta::Rename(n) && n@ == new_name@,
    {
        Self::one(old_name, PropertyDelta::Rename(owned(new_name)))
    }

    /// Append an option to a select, multi-select or status property.
    pub fn add_option(prop_name: &str, kind: SelectKind, option: SelectOption) -> (r: Self)
        ensures
            single_delta(r, prop_name@),
            r.properties@[0].1 == (PropertyDelta::AddOption { kind, option }),
    {
        Self::one(prop_name, PropertyDelta::AddOption { kind, option })
    }

    /// Add a relation property pointing at `target`.
    pub fn add_relation_property(
        prop_name: &str,
        target: DataSourceId,
        direction: RelationDirection,
    ) -> (r: Self)
        ensures
            single_delta(r, prop_name@),
            r.properties@[0].1 == (PropertyDelta::Relation { target, direction }),
    {
        Self::one(prop_name, PropertyDelta::Relation { target, direction })
    }

    /// Take a caller-supplied body verbatim (non-atomic escape hatch).
    pub fn from_bulk(body: BulkBody) -> (r: Result<Self, String>)
        ensures
            !body.is_object ==> (r matches Err(m) && m@ == bulk_not_object_message()),
            body.is_object ==> (body.title matches Some(Err(e)) ==> (r matches Err(m) && m@
                == "title: "@ + e@)),
            body.is_object && !(body.title matches Some(Err(_))) ==> (r matches Ok(req)
                && bulk_request(body, req)),
    {
        if !body.is_object {
            return Err(owned("bulk body must be a JSON object"));
        }
        let title = match body.title {
            Some(Ok(t)) => Some(t),
            Some(Err(e)) => {
                return Err(concat("title: ", e.as_str()));
            },
            None => None,
        };
        let mut properties: Vec<(String, PropertyDelta)> = Vec::new();
        match body.properties {
            Some(ps) => {
                let mut i: usize = 0;
                while i < ps.len()
                    invariant
                        i <= ps.len(),
                        properties@.len() == i,
                        forall|j: int|
                            0 <= j < i ==> (#[trigger] properties@[j]).0 == ps@[j].0
                                && properties@[j].1 == PropertyDelta::Verbatim(ps@[j].1),
                    decreases ps.len() - i,
                {
                    let name = ps[i].0.clone();
                    let value = ps[i].1.clone();
                    properties.push((name, PropertyDelta::Verbatim(value)));
                    i = i + 1;
                }
            },
            None => {},
        }
        Ok(UpdateDataSourceRequest {
            title,
            properties,
            archived: body.archived,
            in_trash: body.in_trash,
        })
    }
}

// === Query =================================================================

/// Body of `POST /v1/data_sources/{id}/query`.
#[derive(Debug)]
pub struct QueryDataSourceRequest {
    pub filter: Option<serde_json::Value>,
    pub sorts: Vec<serde_json::Value>,
    pub start_cursor: Option<String>,
    pub page_size: Option<u8>,
}

// === Paths =================================================================

/// `/data_sources/{id}`.
pub fn data_source_path(id: &DataSourceId) -> (p: String)
    ensures
        p@ == "/data_sources/"@ + id@,
{
    concat("/data_sources/", id.as_str())
}

/// `/data_sources/{id}/query`.
pub fn data_source_query_path(id: &DataSourceId) -> (p: String)
    ensures
        p@ == "/data_sources/"@ + id@ + "/query"@,
{
    let mut p = concat("/data_sources/", id.as_str());
    p.append("/query");
    p
}

// === Property maps =========================================================

/// The map a list of `(name, value)` pairs denotes: later pairs win.
pub open spec fn map_of<V>(s: Seq<(Seq<char>, V)>) -> Map<Seq<char>, V>
    decreases s.len(),
{
    if s.len() == 0 {
        Map::empty()
    } else {
        map_of(s.drop_last()).insert(s.last().0, s.last().1)
    }
}

pub open spec fn entry_views<V>(s: Seq<(String, V)>) -> Seq<(Seq<char>, V)> {
    s.map_values(|e: (String, V)| (e.0@, e.1))
}

/// No two entries share a name.
pub open spec fn unique_names<V>(s: Seq<(String, V)>) -> bool {
    forall|i: int, j: int| 0 <= i < j < s.len() ==> (#[trigger] s[i]).0@ != (#[trigger] s[j]).0@
}

proof fn lemma_map_of_dom<V>(s: Seq<(Seq<char>, V)>, k: Seq<char>)
    ensures
        map_of(s).dom().contains(k) <==> exists|i: int| 0 <= i < s.len() && (#[trigger] s[i]).0
            == k,
    decreases s.len(),
{
    if s.len() > 0 {
        lemma_map_of_dom(s.drop_last(), k);
        if map_of(s.drop_last()).dom().contains(k) {
            let i = choose|i: int| 0 <= i < s.drop_last().len() && (#[trigger] s.drop_last()[i]).0
                == k;
            assert(s[i] == s.drop_last()[i]);
        }
        if exists|i: int| 0 <= i < s.len() && (#[trigger] s[i]).0 == k {
            let i = choose|i: int| 0 <= i < s.len() && (#[trigger] s[i]).0 == k;
            if i < s.len() - 1 {
                assert(s.drop_last()[i] == s[i]);
            }
        }
    }
}

/// Collect `(name, value)` pairs into a property map, as a `HashMap`
/// collect does: one entry per name, the value of its last pair.
pub fn property_map<V>(entries: Vec<(String, V)>) -> (r: Vec<(String, V)>)
    ensures
        unique_names(r@),
        map_of(entry_views(r@)) == map_of(entry_views(entries@)),
{
    let ghost whole = entry_views(entries@);
    let mut rest = entries;
    let mut out: Vec<(String, V)> = Vec::new();
    assert(entry_views(rest@) =~= whole);
    assert(map_of(entry_views(out@)) =~= Map::<Seq<char>, V>::empty());
    assert(map_of(whole) =~= map_of(entry_views(rest@)).union_prefer_right(
        map_of(entry_views(out@)),
    ));
    while rest.len() > 0
        invariant
            unique_names(out@),
            map_of(whole) == map_of(entry_views(rest@)).union_prefer_right(
                map_of(entry_views(out@)),
            ),
        decreases rest.len(),
    {
        let ghost before_rest = rest@;
        let ghost before_out = out@;
        let (name, value) = match rest.pop() {
            Some(e) => e,
            None => vstd::pervasive::unreached(),
        };
        assert(entry_views(rest@) =~= entry_views(before_rest).drop_last());
        assert(entry_views(before_rest).last() == (name@, value));
        let mut j: usize = 0;
        let mut seen = false;
        while j < out.len()
            invariant
                j <= out.len(),
                out@ == before_out,
                !seen ==> forall|k: int| 0 <= k < j ==> (#[trigger] out@[k]).0@ != name@,
                seen ==> exists|k: int| 0 <= k < out@.len() && (#[trigger] out@[k]).0@ == name@,
            decreases out.len() - j,
        {
            if out[j].0 == name {
                seen = true;
            }
            j = j + 1;
        }
        proof {
            let ov = entry_views(before_out);
            if seen {
                let k = choose|k: int| 0 <= k < before_out.len() && (#[trigger] before_out[k]).0@
                    == name@;
                assert(ov[k].0 == name@);
                lemma_map_of_dom(ov, name@);
            } else {
                assert forall|k: int| 0 <= k < ov.len() implies (#[trigger] ov[k]).0 != name@ by {
                    assert(ov[k].0 == before_out[k].0@);
                }
                lemma_map_of_dom(ov, name@);
            }
        }
        if !seen {
            out.push((name, value));
            proof {
                assert(entry_views(out@).drop_last() =~= entry_views(before_out));
                assert forall|a: int, b: int| 0 <= a < b < out@.len() implies (#[trigger] out@[a]).0@
                    != (#[trigger] out@[b]).0@ by {
                    if b == out@.len() - 1 {
                        assert(out@[a] == before_out[a]);
                    } else {
                        assert(out@[a] == before_out[a]);
                        assert(out@[b] == before_out[b]);
                    }
                }
            }
        }
        proof {
            let rv = entry_views(rest@);
            let ov = entry_views(before_out);
            if seen {
                assert(map_of(entry_views(before_rest)) == map_of(rv).insert(name@, value));
                assert(map_of(rv).insert(name@, value).union_prefer_right(map_of(ov))
                    =~= map_of(rv).union_prefer_right(map_of(ov)));
            } else {
                assert(map_of(entry_views(out@)) == map_of(ov).insert(name@, value));
                assert(map_of(rv).insert(name@, value).union_prefer_right(map_of(ov))
                    =~= map_of(rv).union_prefer_right(map_of(ov).insert(name@, value)));
            }
        }
    }
    assert(entry_views(rest@) =~= Seq::<(Seq<char>, V)>::empty());
    assert(map_of(entry_views(rest@)).union_prefer_right(map_of(entry_views(out@)))
        =~= map_of(entry_views(out@)));
    out
}

} // verus!
