//! `notion-cli users *` — user listing arguments and its client-side
//! filter.

use vstd::prelude::*;

use crate::api::pagination::{collect_step, count_after, stops_after, taken_from, PageStep};
use crate::cli::error::CliError;
use crate::error::invalid_id_prefix;
use crate::text::concat;
use crate::validation::{strict_id, strict_reason, UserId};

verus! {

#[derive(Debug)]
pub enum UsersCmd {
    /// List users in the workspace (auto-paginated unless a cursor is given).
    List {
        page_size: Option<u8>,
        limit: Option<usize>,
        cursor: Option<String>,
        bot_only: bool,
        human_only: bool,
    },
    /// Retrieve a single user by id.
    Get { id: String },
}

/// The id argument of `users get`: the strict form only (user ids do
/// not come as URLs).
pub fn user_id_arg(id: &str) -> (r: Result<UserId, CliError>)
    ensures
        match r {
            Ok(u) => strict_id(id@) == Some(u@),
            Err(e) => strict_id(id@) is None && (e matches CliError::Validation(m) && m@
                == "user id: "@ + invalid_id_prefix() + strict_reason(id@)),
        },
{
    match UserId::parse(id) {
        Ok(u) => Ok(u),
        Err(e) => {
            let m = e.message();
            Err(CliError::Validation(concat("user id: ", m.as_str())))
        },
    }
}

/// The kind of a workspace user, as the filter reads it.
#[derive(Debug, Clone, Copy, PartialEq, Eq, Structural)]
pub enum UserKind {
    Person,
    Bot,
}

/// A user passes the filter: `--bot-only` keeps bots, `--human-only`
/// keeps persons.
pub open spec fn admits(bot_only: bool, human_only: bool, kind: UserKind) -> bool {
    !(bot_only && kind != UserKind::Bot) && !(human_only && kind != UserKind::Person)
}

/// The filter's name in a request preview.
pub open spec fn filter_label_spec(bot_only: bool, human_only: bool) -> Seq<char> {
    if bot_only {
        "bot_only"@
    } else if human_only {
        "human_only"@
    } else {
        "none"@
    }
}

pub fn filter_label(bot_only: bool, human_only: bool) -> (s: &'static str)
    ensures
        s@ == filter_label_spec(bot_only, human_only),
{
    if bot_only {
        "bot_only"
    } else if human_only {
        "human_only"
    } else {
        "none"
    }
}

/// One page of `users list`: which users are kept (those the filter
/// admits, up to the limit), and the next cursor, if listing goes on.
pub fn users_page_step(
    kinds: &Vec<UserKind>,
    bot_only: bool,
    human_only: bool,
    collected: usize,
    limit: Option<usize>,
    single_page: bool,
    has_more: bool,
    next_cursor: Option<String>,
) -> (s: PageStep)
    requires
        collected + kinds@.len() <= usize::MAX,
    ensures
        s.take@.map_values(|k: usize| k as int) == taken_from(
            kinds@.map_values(|k: UserKind| admits(bot_only, human_only, k)),
            0,
            collected as int,
            limit,
            true,
        ),
        ({
            let after = collected + s.take@.len();
            let nc = match next_cursor {
                Some(c) => Some(c@),
                None => None,
            };
            &&& stops_after(after, limit, single_page, has_more, nc) ==> s.next is None
            &&& !stops_after(after, limit, single_page, has_more, nc) ==> s.next == next_cursor
        }),
{
    let mut passes: Vec<bool> = Vec::new();
    let mut i: usize = 0;
    while i < kinds.len()
        invariant
            i <= kinds@.len(),
            passes@ == kinds@.subrange(0, i as int).map_values(
                |k: UserKind| admits(bot_only, human_only, k),
            ),
        decreases kinds@.len() - i,
    {
        let k = kinds[i];
        let bot = match k {
            UserKind::Bot => true,
            UserKind::Person => false,
        };
        let person = match k {
            UserKind::Person => true,
            UserKind::Bot => false,
        };
        passes.push(!(bot_only && !bot) && !(human_only && !person));
        assert(kinds@.subrange(0, i + 1).map_values(|k: UserKind| admits(bot_only, human_only, k))
            =~= passes@);
        i = i + 1;
    }
    assert(kinds@.subrange(0, kinds@.len() as int) =~= kinds@);
    let s = collect_step(&passes, collected, limit, true, single_page, has_more, next_cursor);
    assert(count_after(collected as int, s.take@.len(), true) == collected + s.take@.len());
    s
}

} // verus!
