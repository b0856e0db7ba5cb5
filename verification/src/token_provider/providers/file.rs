//! File token provider: the path in `$NOTION_TOKEN_FILE`, else
//! `~/.config/notion-cli/token`.

use vstd::prelude::*;

use crate::text::{chars_of, concat, owned};
use crate::token_provider::TokenProvider;

verus! {

#[derive(Debug, Clone, Copy)]
pub struct FileProvider;

impl TokenProvider for FileProvider {
    fn name(&self) -> (n: &'static str)
        ensures
            n@ == "file"@,
    {
        "file"
    }
}

/// `home` joined with `.config/notion-cli/token`: a separator is put
/// in unless `home` is empty or already ends in one.
pub open spec fn default_token_path(home: Seq<char>) -> Seq<char> {
    if home.len() == 0 {
        ".config/notion-cli/token"@
    } else if home.last() == '/' {
        home + ".config/notion-cli/token"@
    } else {
        home + "/.config/notion-cli/token"@
    }
}

/// Where the file provider reads: `$NOTION_TOKEN_FILE` when set, else
/// the default path under `$HOME`; nothing when neither is set.
pub fn token_file_path(token_file: Option<&str>, home: Option<&str>) -> (r: Option<String>)
    ensures
        token_file matches Some(f) ==> (r matches Some(p) && p@ == f@),
        token_file is None && home is None ==> r is None,
        token_file is None ==> (home matches Some(h) ==> (r matches Some(p) && p@
            == default_token_path(h@))),
{
    match token_file {
        Some(f) => Some(owned(f)),
        None => match home {
            None => None,
            Some(h) => {
                let v = chars_of(h);
                if v.len() == 0 {
                    Some(owned(".config/notion-cli/token"))
                } else if v[v.len() - 1] == '/' {
                    Some(concat(h, ".config/notion-cli/token"))
                } else {
                    Some(concat(h, "/.config/notion-cli/token"))
                }
            },
        },
    }
}

} // verus!
