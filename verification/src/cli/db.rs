//! `notion-cli db *` — database container arguments, and the request
//! bodies built from them.

use vstd::prelude::*;

use crate::api::database::{
    has_title, update_is_empty, CreateDatabaseParent, CreateDatabaseRequest, DatabaseParentUpdate,
    InitialDataSource, UpdateDatabaseRequest, EMPTY_PROPERTIES, MISSING_TITLE,
};
use crate::cli::error::CliError;
use crate::cli::ids::{labelled, page_id_arg};
use crate::text::owned;
use crate::types::{icon_for, is_web_url, is_web_url_exec, Cover, Icon, PropertySchema, RichText};
use crate::validation::{url_or_id, PageId};

verus! {

#[derive(Debug)]
pub enum DbCmd {
    /// Retrieve a database container.
    Get { id: String },
    /// Create a database under a parent page, with the property schemas
    /// read from a JSON file.
    Create {
        parent_page: Option<String>,
        title: Option<String>,
        icon: Option<String>,
        cover: Option<String>,
        inline: bool,
        schema: Option<std::path::PathBuf>,
        json: Option<String>,
    },
    /// Update a database container: metadata and/or parent.
    Update {
        id: String,
        to_page: Option<String>,
        to_workspace: bool,
        title: Option<String>,
        description: Option<String>,
        icon: Option<String>,
        icon_clear: bool,
        cover: Option<String>,
        cover_clear: bool,
        inline: Option<bool>,
        is_locked: Option<bool>,
        in_trash: Option<bool>,
        json: Option<String>,
    },
}

/// The three flags `db create` needs without `--json`, checked in
/// order, then the parent page id.
pub fn check_create_flags(parent_page: Option<&str>, title: Option<&str>, schema_given: bool) -> (r:
    Result<PageId, CliError>)
    ensures
        parent_page is None ==> (r matches Err(CliError::Usage(m)) && m@
            == "--parent-page required (or use --json)"@),
        parent_page is Some && title is None ==> (r matches Err(CliError::Usage(m)) && m@
            == "--title required (or use --json)"@),
        parent_page is Some && title is Some && !schema_given ==> (r matches Err(
            CliError::Usage(m),
        ) && m@ == "--schema required (or use --json)"@),
        parent_page matches Some(p) ==> (title is Some && schema_given ==> match url_or_id(p@) {
            Some(id) => r matches Ok(pid) && pid@ == id,
            None => r matches Err(CliError::Validation(m)) && m@ == labelled("--parent-page"@, p@),
        }),
{
    let p = match parent_page {
        Some(p) => p,
        None => {
            return Err(CliError::Usage(owned("--parent-page required (or use --json)")));
        },
    };
    if title.is_none() {
        return Err(CliError::Usage(owned("--title required (or use --json)")));
    }
    if !schema_given {
        return Err(CliError::Usage(owned("--schema required (or use --json)")));
    }
    page_id_arg(p, "--parent-page")
}

/// The body of `db create` from its flags: the title as one plain
/// rich-text run, the icon from its CLI value, the cover as given, and
/// `is_inline` only when the flag is set.
pub fn create_request(
    parent: PageId,
    title: &str,
    properties: Vec<(String, PropertySchema)>,
    icon: Option<&str>,
    cover: Option<&str>,
    inline: bool,
) -> (r: CreateDatabaseRequest)
    ensures
        r.parent == (CreateDatabaseParent::Page { page_id: parent }),
        r.title@.len() == 1 && r.title@[0].content@ == title@,
        r.initial_data_source.properties@ == properties@,
        icon is None ==> r.icon is None,
        icon matches Some(v) ==> (r.icon matches Some(i) && icon_for(v@, i)),
        cover is None ==> r.cover is None,
        cover matches Some(v) ==> (r.cover matches Some(c) && c.url@ == v@),
        r.is_inline == (if inline {
            Some(true)
        } else {
            None
        }),
{
    CreateDatabaseRequest {
        parent: CreateDatabaseParent::page(parent),
        title: RichText::plain(title),
        initial_data_source: InitialDataSource { properties },
        icon: match icon {
            Some(v) => Some(Icon::parse_cli(v)),
            None => None,
        },
        cover: match cover {
            Some(v) => Some(Cover::external(v)),
            None => None,
        },
        is_inline: if inline {
            Some(true)
        } else {
            None
        },
    }
}

/// A create body that passed the local checks, or the validation error
/// the checks gave.
pub fn checked_create(req: CreateDatabaseRequest) -> (r: Result<CreateDatabaseRequest, CliError>)
    ensures
        ({
            let props = req.initial_data_source.properties@;
            &&& props.len() == 0 ==> (r matches Err(CliError::Validation(m)) && m@
                == EMPTY_PROPERTIES@)
            &&& props.len() > 0 && !has_title(props) ==> (r matches Err(CliError::Validation(m))
                && m@ == MISSING_TITLE@)
            &&& props.len() > 0 && has_title(props) ==> r == Ok::<
                CreateDatabaseRequest,
                CliError,
            >(req)
        }),
{
    match req.validate_local() {
        Ok(()) => Ok(req),
        Err(m) => Err(CliError::Validation(m)),
    }
}

/// The message when both new-parent flags are given.
pub open spec fn parent_conflict_message() -> Seq<char> {
    "--to-page and --to-workspace are mutually exclusive"@
}

/// The message of a cover that is not a URL.
pub open spec fn db_cover_message() -> Seq<char> {
    "--cover must be a URL (http:// or https://)"@
}

/// A `--cover` that `db update` refuses: set (not cleared) and not a URL.
pub open spec fn db_cover_refused(cover: Option<&str>, cover_clear: bool) -> bool {
    match cover {
        Some(v) => !cover_clear && !is_web_url(v@),
        None => false,
    }
}

/// The `--to-page` value does not name a page.
pub open spec fn to_page_refused(to_page: Option<&str>) -> bool {
    match to_page {
        Some(p) => url_or_id(p@) is None,
        None => false,
    }
}

/// The body of `db update` from its flags. Errors, in the order they
/// are checked: both parents, a bad `--to-page` id, a cover that is not
/// a URL. A clear flag wins over the value flag of the same field.
pub fn update_request(
    to_page: Option<&str>,
    to_workspace: bool,
    title: Option<&str>,
    description: Option<&str>,
    icon: Option<&str>,
    icon_clear: bool,
    cover: Option<&str>,
    cover_clear: bool,
    inline: Option<bool>,
    is_locked: Option<bool>,
    in_trash: Option<bool>,
) -> (r: Result<UpdateDatabaseRequest, CliError>)
    ensures
        to_page is Some && to_workspace ==> (r matches Err(CliError::Usage(m)) && m@
            == parent_conflict_message()),
        to_page matches Some(p) ==> (!to_workspace && url_or_id(p@) is None ==> (r matches Err(
            CliError::Validation(m),
        ) && m@ == labelled("--to-page"@, p@))),
        !(to_page is Some && to_workspace) && !to_page_refused(to_page) && db_cover_refused(
            cover,
            cover_clear,
        ) ==> (r matches Err(CliError::Validation(m)) && m@ == db_cover_message()),
        !(to_page is Some && to_workspace) && !to_page_refused(to_page) && !db_cover_refused(
            cover,
            cover_clear,
        ) ==> r is Ok,
        r matches Ok(req) ==> {
            &&& (to_page matches Some(p) ==> (req.parent matches Some(
                DatabaseParentUpdate::Page { page_id },
            ) && url_or_id(p@) == Some(page_id@)))
            &&& (to_page is None && to_workspace ==> req.parent == Some(
                DatabaseParentUpdate::Workspace { workspace: true },
            ))
            &&& (to_page is None && !to_workspace ==> req.parent is None)
            &&& (title is None ==> req.title is None)
            &&& (title matches Some(t) ==> (req.title matches Some(rt) && rt@.len() == 1
                && rt@[0].content@ == t@))
            &&& (description is None ==> req.description is None)
            &&& (description matches Some(d) ==> (req.description matches Some(rt) && rt@.len()
                == 1 && rt@[0].content@ == d@))
            &&& (icon_clear ==> req.icon == Some(None::<Icon>))
            &&& (!icon_clear && icon is None ==> req.icon is None)
            &&& (icon matches Some(v) ==> (!icon_clear ==> (req.icon matches Some(Some(i))
                && icon_for(v@, i))))
            &&& (cover_clear ==> req.cover == Some(None::<Cover>))
            &&& (!cover_clear && cover is None ==> req.cover is None)
            &&& (cover matches Some(v) ==> (!cover_clear ==> (req.cover matches Some(Some(c))
                && c.url@ == v@)))
            &&& req.is_inline == inline
            &&& req.is_locked == is_locked
            &&& req.in_trash == in_trash
        },
{
    if to_page.is_some() && to_workspace {
        return Err(CliError::Usage(owned("--to-page and --to-workspace are mutually exclusive")));
    }
    let mut r = UpdateDatabaseRequest::default();
    if let Some(pid) = to_page {
        let parent = page_id_arg(pid, "--to-page")?;
        r.parent = Some(DatabaseParentUpdate::page(parent));
    } else if to_workspace {
        r.parent = Some(DatabaseParentUpdate::workspace());
    }
    if let Some(t) = title {
        r.title = Some(RichText::plain(t));
    }
    if let Some(d) = description {
        r.description = Some(RichText::plain(d));
    }
    if icon_clear {
        r.icon = Some(None);
    } else if let Some(v) = icon {
        r.icon = Some(Some(Icon::parse_cli(v)));
    }
    if cover_clear {
        r.cover = Some(None);
    } else if let Some(v) = cover {
        if !is_web_url_exec(v) {
            return Err(CliError::Validation(owned("--cover must be a URL (http:// or https://)")));
        }
        r.cover = Some(Some(Cover::external(v)));
    }
    r.is_inline = inline;
    r.is_locked = is_locked;
    r.in_trash = in_trash;
    Ok(r)
}

/// The message of an update that changes nothing.
pub open spec fn empty_update_message() -> Seq<char> {
    "no update fields provided — see --help"@
}

/// An update body that sets at least one field; an empty one is refused
/// before it reaches Notion.
pub fn require_fields(req: UpdateDatabaseRequest) -> (r: Result<UpdateDatabaseRequest, CliError>)
    ensures
        update_is_empty(req) ==> (r matches Err(CliError::Usage(m)) && m@
            == empty_update_message()),
        !update_is_empty(req) ==> r == Ok::<UpdateDatabaseRequest, CliError>(req),
{
    if req.is_empty() {
        Err(CliError::Usage(owned("no update fields provided — see --help")))
    } else {
        Ok(req)
    }
}

} // verus!
