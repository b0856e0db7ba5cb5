//! Runtime configuration types.

use vstd::prelude::*;

use crate::text::{chars_of, concat, string_of, sub_vec};

verus! {

/// A Notion integration token.
///
/// Wrapped so that it never leaks through formatting: only
/// [`NotionToken::expose`] hands out the raw text, for building the
/// `Authorization: Bearer …` header.
#[derive(Clone)]
pub struct NotionToken(String);

impl View for NotionToken {
    type V = Seq<char>;

    closed spec fn view(&self) -> Seq<char> {
        self.0@
    }
}

/// The part of a token that is safe to show: its first four characters.
pub open spec fn token_prefix(raw: Seq<char>) -> Seq<char> {
    if raw.len() <= 4 {
        raw
    } else {
        raw.take(4)
    }
}

impl NotionToken {
    pub fn new(raw: String) -> (t: Self)
        ensures
            t@ == raw@,
    {
        NotionToken(raw)
    }

    /// Raw token — only for the Authorization header.
    pub fn expose(&self) -> (r: &str)
        ensures
            r@ == self@,
    {
        self.0.as_str()
    }

    /// First 4 characters of the token (for diagnostics).
    pub fn prefix(&self) -> (r: String)
        ensures
            r@ == token_prefix(self@),
    {
        let v = chars_of(self.0.as_str());
        let n: usize = if v.len() <= 4 { v.len() } else { 4 };
        let p = sub_vec(&v, 0, n);
        assert(v@.len() <= 4 ==> v@.subrange(0, n as int) =~= v@);
        string_of(&p)
    }

    /// What `Debug` shows: the prefix only, never the secret.
    pub fn debug_text(&self) -> (r: String)
        ensures
            r@ == "NotionToken("@ + token_prefix(self@) + "…)"@,
    {
        let p = self.prefix();
        let mut r = concat("NotionToken(", p.as_str());
        r.append("…)");
        r
    }

    /// What `Display` shows: nothing at all.
    pub fn display_text(&self) -> (r: String)
        ensures
            r@ == Seq::<char>::empty(),
    {
        String::new()
    }
}

} // verus!
