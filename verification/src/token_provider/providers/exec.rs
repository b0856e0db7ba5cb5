//! Exec token provider: runs the command in `$NOTION_TOKEN_CMD` and
//! takes its standard output as the token. The command is split on
//! whitespace into program and arguments (no shell expansion).

use vstd::prelude::*;

use crate::text::{chars_of, is_space, is_space_exec, string_of};
use crate::token_provider::TokenProvider;

verus! {

#[derive(Debug, Clone, Copy)]
pub struct ExecProvider;

impl TokenProvider for ExecProvider {
    fn name(&self) -> (n: &'static str)
        ensures
            n@ == "exec:NOTION_TOKEN_CMD"@,
    {
        "exec:NOTION_TOKEN_CMD"
    }
}

/// Splitting text on whitespace, left to right: the words completed so
/// far, and the word being read.
pub open spec fn words_acc(s: Seq<char>) -> (Seq<Seq<char>>, Seq<char>)
    decreases s.len(),
{
    if s.len() == 0 {
        (Seq::empty(), Seq::empty())
    } else {
        let (ws, cur) = words_acc(s.drop_last());
        if is_space(s.last()) {
            if cur.len() > 0 {
                (ws.push(cur), Seq::empty())
            } else {
                (ws, cur)
            }
        } else {
            (ws, cur.push(s.last()))
        }
    }
}

/// The whitespace-separated words of a text (`str::split_whitespace`).
pub open spec fn words(s: Seq<char>) -> Seq<Seq<char>> {
    let (ws, cur) = words_acc(s);
    if cur.len() > 0 {
        ws.push(cur)
    } else {
        ws
    }
}

/// The words of a text.
pub fn split_words(s: &str) -> (r: Vec<String>)
    ensures
        r@.map_values(|w: String| w@) == words(s@),
{
    let v = chars_of(s);
    let mut ws: Vec<String> = Vec::new();
    let mut cur: Vec<char> = Vec::new();
    let mut i: usize = 0;
    while i < v.len()
        invariant
            i <= v@.len(),
            v@ == s@,
            (ws@.map_values(|w: String| w@), cur@) == words_acc(v@.subrange(0, i as int)),
        decreases v@.len() - i,
    {
        let ghost pre = v@.subrange(0, i as int);
        let ghost post = v@.subrange(0, i + 1);
        assert(post.drop_last() =~= pre);
        assert(post.last() == v@[i as int]);
        let c = v[i];
        if is_space_exec(c) {
            if cur.len() > 0 {
                let w = string_of(&cur);
                let ghost before = ws@.map_values(|w: String| w@);
                ws.push(w);
                assert(ws@.map_values(|w: String| w@) =~= before.push(cur@));
                cur = Vec::new();
            }
        } else {
            cur.push(c);
        }
        i = i + 1;
    }
    assert(v@.subrange(0, v@.len() as int) =~= v@);
    if cur.len() > 0 {
        let w = string_of(&cur);
        let ghost before = ws@.map_values(|w: String| w@);
        ws.push(w);
        assert(ws@.map_values(|w: String| w@) =~= before.push(cur@));
    }
    ws
}

/// The command line of `$NOTION_TOKEN_CMD` as program and arguments;
/// nothing when it holds no word.
pub fn split_command(cmd: &str) -> (r: Option<(String, Vec<String>)>)
    ensures
        words(cmd@).len() == 0 ==> r is None,
        words(cmd@).len() > 0 ==> (r matches Some((p, args)) && p@ == words(cmd@)[0]
            && args@.map_values(|w: String| w@) == words(cmd@).drop_first()),
{
    let mut ws = split_words(cmd);
    if ws.len() == 0 {
        return None;
    }
    let ghost all = ws@;
    let program = ws.remove(0);
    assert(ws@.map_values(|w: String| w@) =~= all.map_values(|w: String| w@).drop_first());
    Some((program, ws))
}

} // verus!
