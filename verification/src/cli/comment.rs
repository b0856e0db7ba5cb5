//! `notion-cli comments *` — comment arguments, the target and body
//! they resolve to, and the collection of listed comments.

use vstd::prelude::*;

use crate::api::comment::{CommentParent, CreateCommentRequest};
use crate::api::pagination::{collect_step, law_collect_within_limit, stops_after, taken_from, PageStep};
use crate::cli::error::CliError;
use crate::cli::ids::{block_id_arg, labelled, page_id_arg};
use crate::text::owned;
use crate::types::RichText;
use crate::validation::{url_or_id, BlockId};

verus! {

#[derive(Debug)]
pub enum CommentsCmd {
    /// List comments on a page or block.
    List {
        on_page: Option<String>,
        on_block: Option<String>,
        page_size: Option<u8>,
        limit: Option<usize>,
        cursor: Option<String>,
    },
    /// Create a top-level comment on a page, or a reply in a discussion.
    Create { on_page: Option<String>, in_discussion: Option<String>, text: String },
}

/// The block whose comments `comments list` reads: exactly one of
/// `--on-page` and `--on-block`. A page id is a block id, so both
/// flags take the same forms; they differ in the error's label.
pub fn list_target(on_page: Option<&str>, on_block: Option<&str>) -> (r: Result<BlockId, CliError>)
    ensures
        on_page.is_some() == on_block.is_some() ==> (r matches Err(CliError::Usage(m)) && m@
            == "exactly one of --on-page or --on-block required"@),
        on_page matches Some(p) ==> (on_block is None ==> match url_or_id(p@) {
            Some(id) => r matches Ok(b) && b@ == id,
            None => r matches Err(CliError::Validation(m)) && m@ == labelled("--on-page"@, p@),
        }),
        on_block matches Some(b) ==> (on_page is None ==> match url_or_id(b@) {
            Some(id) => r matches Ok(x) && x@ == id,
            None => r matches Err(CliError::Validation(m)) && m@ == labelled("--on-block"@, b@),
        }),
{
    match (on_page, on_block) {
        (Some(p), None) => block_id_arg(p, "--on-page"),
        (None, Some(b)) => block_id_arg(b, "--on-block"),
        _ => Err(CliError::Usage(owned("exactly one of --on-page or --on-block required"))),
    }
}

/// The body of `comments create`: top-level on a page, or a reply into
/// a discussion; exactly one of the two.
pub fn create_request(on_page: Option<&str>, in_discussion: Option<&str>, text: &str) -> (r: Result<
    CreateCommentRequest,
    CliError,
>)
    ensures
        on_page.is_some() == in_discussion.is_some() ==> (r matches Err(CliError::Usage(m)) && m@
            == "exactly one of --on-page or --in-discussion required"@),
        on_page matches Some(p) ==> (in_discussion is None ==> match url_or_id(p@) {
            Some(id) => r matches Ok(req) && (req.parent matches Some(CommentParent { page_id })
                && page_id@ == id) && req.discussion_id is None,
            None => r matches Err(CliError::Validation(m)) && m@ == labelled("--on-page"@, p@),
        }),
        in_discussion matches Some(d) ==> (on_page is None ==> (r matches Ok(req)
            && req.parent is None && (req.discussion_id matches Some(x) && x@ == d@))),
        r matches Ok(req) ==> req.rich_text@.len() == 1 && req.rich_text@[0].content@ == text@,
{
    let (parent, discussion_id) = match (on_page, in_discussion) {
        (Some(p), None) => {
            let pid = page_id_arg(p, "--on-page")?;
            (Some(CommentParent { page_id: pid }), None)
        },
        (None, Some(d)) => (None, Some(owned(d))),
        _ => {
            return Err(CliError::Usage(owned("exactly one of --on-page or --in-discussion required")));
        },
    };
    Ok(CreateCommentRequest { parent, discussion_id, rich_text: RichText::plain(text) })
}

/// One page of `comments list`: which comments are taken and the next
/// cursor, if listing goes on. Every comment passes, and every comment
/// taken counts toward the limit, whether it is kept for the final
/// output or streamed out at once (`emitted`: taken so far). Starting
/// below the limit, a page never takes the count past it, and listing
/// goes on only while the count is below it.
pub fn comments_page_step(
    n: usize,
    emitted: usize,
    limit: Option<usize>,
    single_page: bool,
    has_more: bool,
    next_cursor: Option<String>,
) -> (s: PageStep)
    requires
        emitted + n <= usize::MAX,
    ensures
        s.take@.map_values(|k: usize| k as int) == taken_from(
            Seq::new(n as nat, |i: int| true),
            0,
            emitted as int,
            limit,
            true,
        ),
        limit matches Some(k) ==> (emitted < k ==> emitted + s.take@.len() <= k),
        limit matches Some(k) ==> (s.next is Some ==> emitted + s.take@.len() < k),
        ({
            let after = emitted + s.take@.len();
            let nc = match next_cursor {
                Some(c) => Some(c@),
                None => None,
            };
            &&& stops_after(after, limit, single_page, has_more, nc) ==> s.next is None
            &&& !stops_after(after, limit, single_page, has_more, nc) ==> s.next == next_cursor
        }),
{
    let mut passes: Vec<bool> = Vec::new();
    let mut i: usize = 0;
    while i < n
        invariant
            i <= n,
            passes@ == Seq::new(i as nat, |j: int| true),
        decreases n - i,
    {
        passes.push(true);
        assert(passes@ =~= Seq::new((i + 1) as nat, |j: int| true));
        i = i + 1;
    }
    proof {
        law_collect_within_limit(passes@, emitted as int, limit);
    }
    collect_step(&passes, emitted, limit, true, single_page, has_more, next_cursor)
}

} // verus!
