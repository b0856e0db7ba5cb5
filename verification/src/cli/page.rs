//! `notion-cli page *` — arguments, and the request bodies and dry-run
//! paths built from them.

use vstd::prelude::*;

use crate::api::page::{CreatePageRequest, MoveTarget, PageParent, UpdatePageRequest};
use crate::cli::error::CliError;
use crate::cli::ids::{data_source_id_arg, labelled, page_id_arg};
use crate::text::{
    concat, decimal, decimal_string, eq_ignore_ascii_case, eq_ignore_case, has_sub, join, join_seqs,
    lemma_has_sub_extend, lemma_has_sub_self, lemma_join_starts_with_first, owned,
};
use crate::types::{icon_for, is_web_url, is_web_url_exec, Cover, Icon};
use crate::validation::{url_or_id, PageId};

verus! {

#[derive(Debug)]
pub enum PageCmd {
    /// Retrieve a page (optionally only the listed property ids).
    Get { id: String, properties: Vec<String> },
    /// Retrieve one property of a page.
    GetProperty {
        page_id: String,
        property_id: String,
        cursor: Option<String>,
        page_size: Option<u8>,
    },
    /// Create a page under a data source or a page.
    Create {
        parent_data_source: Option<String>,
        parent_page: Option<String>,
        properties: Option<String>,
        children: Option<String>,
        icon: Option<String>,
        cover: Option<String>,
        json: Option<String>,
    },
    /// Update a page's properties, archive or trash state, icon, cover.
    Update {
        id: String,
        properties: Option<String>,
        archived: Option<bool>,
        in_trash: Option<bool>,
        icon: Option<String>,
        cover: Option<String>,
        json: Option<String>,
    },
    /// Move a page to the trash.
    Archive { id: String },
    /// Relocate a page under a new parent.
    Move { id: String, to_page: Option<String>, to_data_source: Option<String>, json: Option<String> },
}

/// The word that clears an icon or cover.
pub open spec fn is_none_word(s: Seq<char>) -> bool {
    eq_ignore_case(s, "none"@)
}

/// `--icon` on update, a tristate: absent leaves the icon alone, `none`
/// (any case) clears it, anything else sets it (URL → external, else
/// emoji).
pub fn parse_icon_flag(value: Option<&str>) -> (r: Option<Option<Icon>>)
    ensures
        value is None ==> r is None,
        value matches Some(v) ==> (is_none_word(v@) ==> r == Some(None::<Icon>)),
        value matches Some(v) ==> (!is_none_word(v@) ==> (r matches Some(Some(i)) && icon_for(
            v@,
            i,
        ))),
{
    match value {
        None => None,
        Some(v) => {
            if eq_ignore_ascii_case(v, "none") {
                Some(None)
            } else {
                Some(Some(Icon::parse_cli(v)))
            }
        },
    }
}

/// The message of a cover value that is not a URL.
pub open spec fn cover_error_message(value: Seq<char>) -> Seq<char> {
    "must be a URL (http:// or https://), got: "@ + value
}

/// A cover: `http(s)://` URLs only.
pub fn parse_cover_url(value: &str) -> (r: Result<Cover, String>)
    ensures
        is_web_url(value@) ==> (r matches Ok(c) && c.url@ == value@),
        !is_web_url(value@) ==> (r matches Err(m) && m@ == cover_error_message(value@)),
{
    if is_web_url_exec(value) {
        Ok(Cover::external(value))
    } else {
        Err(concat("must be a URL (http:// or https://), got: ", value))
    }
}

/// `--cover` on update, a tristate: absent leaves it, `none` clears it,
/// a URL sets it, anything else is refused.
pub fn parse_cover_flag(value: Option<&str>) -> (r: Result<Option<Option<Cover>>, String>)
    ensures
        value is None ==> r == Ok::<Option<Option<Cover>>, String>(None),
        value matches Some(v) ==> (is_none_word(v@) ==> r == Ok::<Option<Option<Cover>>, String>(
            Some(None),
        )),
        value matches Some(v) ==> (!is_none_word(v@) && is_web_url(v@) ==> (r matches Ok(
            Some(Some(c)),
        ) && c.url@ == v@)),
        value matches Some(v) ==> (!is_none_word(v@) && !is_web_url(v@) ==> (r matches Err(m)
            && m@ == cover_error_message(v@))),
{
    match value {
        None => Ok(None),
        Some(v) => {
            if eq_ignore_ascii_case(v, "none") {
                Ok(Some(None))
            } else {
                match parse_cover_url(v) {
                    Ok(c) => Ok(Some(Some(c))),
                    Err(m) => Err(m),
                }
            }
        },
    }
}

/// A flag's message under its `"<flag>: "` prefix, as a validation error.
fn flag_error(prefix: &str, m: String) -> (e: CliError)
    ensures
        e matches CliError::Validation(t) && t@ == prefix@ + m@,
{
    CliError::Validation(concat(prefix, m.as_str()))
}

/// The message when neither or both parents are given.
pub open spec fn create_parent_message() -> Seq<char> {
    "exactly one of --parent-data-source or --parent-page required"@
}

/// The parent of `page create`: exactly one of the two flags.
pub fn create_parent(parent_data_source: Option<&str>, parent_page: Option<&str>) -> (r: Result<
    PageParent,
    CliError,
>)
    ensures
        parent_data_source.is_some() == parent_page.is_some() ==> (r matches Err(
            CliError::Usage(m),
        ) && m@ == create_parent_message()),
        parent_data_source matches Some(ds) ==> (parent_page is None ==> match url_or_id(ds@) {
            Some(id) => r matches Ok(PageParent::DataSource { data_source_id }) && data_source_id@
                == id,
            None => r matches Err(CliError::Validation(m)) && m@ == labelled(
                "--parent-data-source"@,
                ds@,
            ),
        }),
        parent_page matches Some(p) ==> (parent_data_source is None ==> match url_or_id(p@) {
            Some(id) => r matches Ok(PageParent::Page { page_id }) && page_id@ == id,
            None => r matches Err(CliError::Validation(m)) && m@ == labelled("--parent-page"@, p@),
        }),
{
    match (parent_data_source, parent_page) {
        (Some(ds), None) => {
            let id = data_source_id_arg(ds, "--parent-data-source")?;
            Ok(PageParent::DataSource { data_source_id: id })
        },
        (None, Some(p)) => {
            let id = page_id_arg(p, "--parent-page")?;
            Ok(PageParent::Page { page_id: id })
        },
        _ => Err(CliError::Usage(owned("exactly one of --parent-data-source or --parent-page required"))),
    }
}

/// Exactly one parent is given, and it names a valid id.
pub open spec fn create_parent_ok(parent_data_source: Option<&str>, parent_page: Option<&str>) -> bool {
    match (parent_data_source, parent_page) {
        (Some(ds), None) => url_or_id(ds@) is Some,
        (None, Some(p)) => url_or_id(p@) is Some,
        _ => false,
    }
}

/// A `--cover` value that `page create` refuses: not a URL.
pub open spec fn cover_refused(cover: Option<&str>) -> bool {
    match cover {
        Some(v) => !is_web_url(v@),
        None => false,
    }
}

/// A `--cover` value that `page update` refuses: neither `none` nor a URL.
pub open spec fn cover_patch_refused(cover: Option<&str>) -> bool {
    match cover {
        Some(v) => !is_none_word(v@) && !is_web_url(v@),
        None => false,
    }
}

/// A flag's parsed JSON, or the parser's message.
pub type Parsed<T> = Option<Result<T, String>>;

/// The body of `page create` from its flags. The JSON flags arrive
/// already parsed (`None` when absent); their errors are reported in
/// the order the flags are checked: parent, properties, children, cover.
pub fn build_create(
    parent_data_source: Option<&str>,
    parent_page: Option<&str>,
    properties: Parsed<Vec<(String, serde_json::Value)>>,
    children: Parsed<Vec<serde_json::Value>>,
    icon: Option<&str>,
    cover: Option<&str>,
) -> (r: Result<CreatePageRequest, CliError>)
    ensures
        parent_data_source.is_some() == parent_page.is_some() ==> (r matches Err(
            CliError::Usage(m),
        ) && m@ == create_parent_message()),
        r matches Ok(req) ==> {
            &&& (parent_data_source matches Some(ds) ==> (req.parent matches PageParent::DataSource {
                data_source_id,
            } && url_or_id(ds@) == Some(data_source_id@)))
            &&& (parent_page matches Some(p) ==> (req.parent matches PageParent::Page { page_id }
                && url_or_id(p@) == Some(page_id@)))
            &&& (properties matches Some(Ok(ps)) ==> req.properties@ == ps@)
            &&& (properties is None ==> req.properties@.len() == 0)
            &&& (children matches Some(Ok(cs)) ==> req.children@ == cs@)
            &&& (children is None ==> req.children@.len() == 0)
            &&& (icon is None ==> req.icon is None)
            &&& (icon matches Some(v) ==> (req.icon matches Some(i) && icon_for(v@, i)))
            &&& (cover is None ==> req.cover is None)
            &&& (cover matches Some(v) ==> (req.cover matches Some(c) && c.url@ == v@))
        },
        !create_parent_ok(parent_data_source, parent_page) ==> r matches Err(
            CliError::Validation(_),
        ) || r matches Err(CliError::Usage(_)),
        properties matches Some(Err(e)) ==> (create_parent_ok(parent_data_source, parent_page) ==> (
        r matches Err(CliError::Validation(m)) && m@ == "--properties: "@ + e@)),
        children matches Some(Err(e)) ==> (create_parent_ok(parent_data_source, parent_page) && !(
        properties matches Some(Err(_))) ==> (r matches Err(CliError::Validation(m)) && m@
            == "--children: "@ + e@)),
        cover matches Some(v) ==> (create_parent_ok(parent_data_source, parent_page) && !(
        properties matches Some(Err(_))) && !(children matches Some(Err(_))) && !is_web_url(v@)
            ==> (r matches Err(CliError::Validation(m)) && m@ == "--cover: "@ + cover_error_message(
            v@,
        ))),
        create_parent_ok(parent_data_source, parent_page) && !(properties matches Some(Err(_)))
            && !(children matches Some(Err(_))) && !cover_refused(cover)
            ==> r is Ok,
{
    let parent = create_parent(parent_data_source, parent_page)?;
    let props = match properties {
        None => Vec::new(),
        Some(Ok(ps)) => ps,
        Some(Err(e)) => {
            return Err(flag_error("--properties: ", e));
        },
    };
    let child_blocks = match children {
        None => Vec::new(),
        Some(Ok(cs)) => cs,
        Some(Err(e)) => {
            return Err(flag_error("--children: ", e));
        },
    };
    let create_icon = match icon {
        None => None,
        Some(v) => Some(Icon::parse_cli(v)),
    };
    let create_cover = match cover {
        None => None,
        Some(v) => match parse_cover_url(v) {
            Ok(c) => Some(c),
            Err(m) => {
                return Err(flag_error("--cover: ", m));
            },
        },
    };
    Ok(CreatePageRequest {
        parent,
        properties: props,
        children: child_blocks,
        icon: create_icon,
        cover: create_cover,
    })
}

/// The body of `page update` from its flags (properties arrive parsed,
/// `None` when absent).
pub fn build_update(
    properties: Parsed<Vec<(String, serde_json::Value)>>,
    archived: Option<bool>,
    in_trash: Option<bool>,
    icon: Option<&str>,
    cover: Option<&str>,
) -> (r: Result<UpdatePageRequest, CliError>)
    ensures
        properties matches Some(Err(e)) ==> (r matches Err(CliError::Validation(m)) && m@
            == "--properties: "@ + e@),
        cover matches Some(v) ==> (!(properties matches Some(Err(_))) && !is_none_word(v@)
            && !is_web_url(v@) ==> (r matches Err(CliError::Validation(m)) && m@ == "--cover: "@
            + cover_error_message(v@))),
        !(properties matches Some(Err(_))) && !cover_patch_refused(cover) ==> r is Ok,
        r matches Ok(req) ==> {
            &&& (properties matches Some(Ok(ps)) ==> req.properties@ == ps@)
            &&& (properties is None ==> req.properties@.len() == 0)
            &&& req.archived == archived
            &&& req.in_trash == in_trash
            &&& (icon is None ==> req.icon is None)
            &&& (icon matches Some(v) ==> (is_none_word(v@) ==> req.icon == Some(None::<Icon>)))
            &&& (icon matches Some(v) ==> (!is_none_word(v@) ==> (req.icon matches Some(Some(i))
                && icon_for(v@, i))))
            &&& (cover is None ==> req.cover is None)
            &&& (cover matches Some(v) ==> (is_none_word(v@) ==> req.cover == Some(None::<Cover>)))
            &&& (cover matches Some(v) ==> (!is_none_word(v@) ==> (req.cover matches Some(Some(c))
                && c.url@ == v@)))
        },
{
    let props = match properties {
        None => Vec::new(),
        Some(Ok(ps)) => ps,
        Some(Err(e)) => {
            return Err(flag_error("--properties: ", e));
        },
    };
    let icon_patch = parse_icon_flag(icon);
    let cover_patch = match parse_cover_flag(cover) {
        Ok(c) => c,
        Err(m) => {
            return Err(flag_error("--cover: ", m));
        },
    };
    Ok(UpdatePageRequest {
        properties: props,
        archived,
        in_trash,
        icon: icon_patch,
        cover: cover_patch,
    })
}

/// The message when neither or both move targets are given.
pub open spec fn move_target_message() -> Seq<char> {
    "exactly one of --to-page or --to-data-source required"@
}

/// The target of `page move`: exactly one of the two flags.
pub fn move_target(to_page: Option<&str>, to_data_source: Option<&str>) -> (r: Result<
    MoveTarget,
    CliError,
>)
    ensures
        to_page.is_some() == to_data_source.is_some() ==> (r matches Err(CliError::Usage(m))
            && m@ == move_target_message()),
        to_page matches Some(p) ==> (to_data_source is None ==> match url_or_id(p@) {
            Some(id) => r matches Ok(MoveTarget::ToPage(t)) && t@ == id,
            None => r matches Err(CliError::Validation(m)) && m@ == labelled("--to-page"@, p@),
        }),
        to_data_source matches Some(ds) ==> (to_page is None ==> match url_or_id(ds@) {
            Some(id) => r matches Ok(MoveTarget::ToDataSource(t)) && t@ == id,
            None => r matches Err(CliError::Validation(m)) && m@ == labelled(
                "--to-data-source"@,
                ds@,
            ),
        }),
{
    match (to_page, to_data_source) {
        (Some(p), None) => Ok(MoveTarget::ToPage(page_id_arg(p, "--to-page")?)),
        (None, Some(ds)) => Ok(MoveTarget::ToDataSource(data_source_id_arg(ds, "--to-data-source")?)),
        _ => Err(CliError::Usage(owned("exactly one of --to-page or --to-data-source required"))),
    }
}

/// The `filter_properties=<id>` pairs of a filtered page read.
pub open spec fn filter_pairs(properties: Seq<Seq<char>>) -> Seq<Seq<char>> {
    properties.map_values(|p: Seq<char>| "filter_properties="@ + p)
}

/// The dry-run path of `page get`: `/v1/pages/{id}`, with one
/// `filter_properties=` pair per listed property.
pub fn page_get_path(id: &PageId, properties: &Vec<String>) -> (p: String)
    ensures
        properties@.len() == 0 ==> p@ == "/v1/pages/"@ + id@,
        properties@.len() > 0 ==> p@ == "/v1/pages/"@ + id@ + "?"@ + join_seqs(
            filter_pairs(properties@.map_values(|s: String| s@)),
            "&"@,
        ),
{
    let mut p = concat("/v1/pages/", id.as_str());
    if properties.len() == 0 {
        return p;
    }
    let mut pairs: Vec<String> = Vec::new();
    let mut i: usize = 0;
    while i < properties.len()
        invariant
            i <= properties.len(),
            pairs@.len() == i,
            forall|k: int|
                0 <= k < i ==> #[trigger] pairs@[k]@ == "filter_properties="@ + properties@[k]@,
        decreases properties.len() - i,
    {
        pairs.push(concat("filter_properties=", properties[i].as_str()));
        i = i + 1;
    }
    assert(pairs@.map_values(|s: String| s@) =~= filter_pairs(
        properties@.map_values(|s: String| s@),
    ));
    p.append("?");
    let q = join(&pairs, "&");
    p.append(q.as_str());
    p
}

/// The dry-run path of `page get-property`, with its unencoded
/// `start_cursor` and `page_size` pairs.
pub open spec fn property_path_spec(
    id: Seq<char>,
    property_id: Seq<char>,
    cursor: Option<Seq<char>>,
    page_size: Option<u8>,
) -> Seq<char> {
    let base = "/v1/pages/"@ + id + "/properties/"@ + property_id;
    let pairs = (match cursor {
        Some(c) => seq!["start_cursor="@ + c],
        None => Seq::empty(),
    }) + (match page_size {
        Some(n) => seq!["page_size="@ + decimal(n as nat)],
        None => Seq::empty(),
    });
    if pairs.len() == 0 {
        base
    } else {
        base + "?"@ + join_seqs(pairs, "&"@)
    }
}

/// A property read carries its cursor whenever one is given, whatever
/// the page size: the path holds `start_cursor=<cursor>` after its `?`.
pub proof fn law_property_path_carries_cursor(
    id: Seq<char>,
    property_id: Seq<char>,
    cursor: Seq<char>,
    page_size: Option<u8>,
)
    ensures
        has_sub(
            property_path_spec(id, property_id, Some(cursor), page_size),
            "?"@ + "start_cursor="@ + cursor,
        ),
{
    let base = "/v1/pages/"@ + id + "/properties/"@ + property_id;
    let pairs = seq!["start_cursor="@ + cursor] + (match page_size {
        Some(n) => seq!["page_size="@ + decimal(n as nat)],
        None => Seq::<Seq<char>>::empty(),
    });
    assert(pairs.len() > 0);
    let j = join_seqs(pairs, "&"@);
    lemma_join_starts_with_first(pairs, "&"@);
    let t = "?"@ + "start_cursor="@ + cursor;
    let rest = j.skip(pairs[0].len() as int);
    assert(j =~= pairs[0] + rest);
    assert(base + "?"@ + j =~= base + (t + rest));
    lemma_has_sub_self(t);
    lemma_has_sub_extend(t, rest, t);
    lemma_has_sub_extend(t + rest, base, t);
}

pub fn page_property_path(
    id: &PageId,
    property_id: &str,
    cursor: Option<&str>,
    page_size: Option<u8>,
) -> (p: String)
    ensures
        p@ == property_path_spec(id@, property_id@, match cursor {
            Some(c) => Some(c@),
            None => None,
        }, page_size),
{
    let mut p = concat("/v1/pages/", id.as_str());
    p.append("/properties/");
    p.append(property_id);
    let mut qs: Vec<String> = Vec::new();
    if let Some(c) = cursor {
        qs.push(concat("start_cursor=", c));
    }
    if let Some(n) = page_size {
        let d = decimal_string(n as u64);
        qs.push(concat("page_size=", d.as_str()));
    }
    let ghost pairs = (match cursor {
        Some(c) => seq!["start_cursor="@ + c@],
        None => Seq::<Seq<char>>::empty(),
    }) + (match page_size {
        Some(n) => seq!["page_size="@ + decimal(n as nat)],
        None => Seq::<Seq<char>>::empty(),
    });
    assert(qs@.map_values(|s: String| s@) =~= pairs);
    if qs.len() > 0 {
        p.append("?");
        let q = join(&qs, "&");
        p.append(q.as_str());
    }
    p
}

} // verus!
