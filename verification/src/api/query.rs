//! Query strings in `application/x-www-form-urlencoded` syntax, as the
//! `url` crate's form serializer writes them.

use vstd::prelude::*;

use crate::foreign::{form_bytes, form_encode};
use crate::text::{concat, decimal, decimal_string, join, join_seqs, owned};

verus! {

/// One `name=value` pair, both sides form-encoded.
pub open spec fn encoded_pair(name: Seq<char>, value: Seq<char>) -> Seq<char> {
    form_bytes(vstd::utf8::encode_utf8(name)) + "="@ + form_bytes(vstd::utf8::encode_utf8(value))
}

/// The pairs in order, joined by `&`.
pub open spec fn query_of(pairs: Seq<(Seq<char>, Seq<char>)>) -> Seq<char> {
    join_seqs(pairs.map_values(|p: (Seq<char>, Seq<char>)| encoded_pair(p.0, p.1)), "&"@)
}

/// A pair that is present only when its value is.
pub open spec fn opt_pair(name: Seq<char>, value: Option<Seq<char>>) -> Seq<(Seq<char>, Seq<char>)> {
    match value {
        Some(v) => seq![(name, v)],
        None => Seq::empty(),
    }
}

pub open spec fn opt_number(n: Option<u8>) -> Option<Seq<char>> {
    match n {
        Some(k) => Some(decimal(k as nat)),
        None => None,
    }
}

pub open spec fn opt_text(s: Option<&str>) -> Option<Seq<char>> {
    match s {
        Some(t) => Some(t@),
        None => None,
    }
}

pub open spec fn pair_views(pairs: Seq<(String, String)>) -> Seq<(Seq<char>, Seq<char>)> {
    pairs.map_values(|p: (String, String)| (p.0@, p.1@))
}

/// Encode name/value pairs into a query string.
pub fn encode_query(pairs: &Vec<(String, String)>) -> (r: String)
    ensures
        r@ == query_of(pair_views(pairs@)),
{
    let mut parts: Vec<String> = Vec::new();
    let mut i: usize = 0;
    while i < pairs.len()
        invariant
            i <= pairs.len(),
            parts@.len() == i,
            forall|k: int|
                0 <= k < i ==> (#[trigger] parts@[k])@ == encoded_pair(pairs@[k].0@, pairs@[k].1@),
        decreases pairs.len() - i,
    {
        let name = form_encode(pairs[i].0.as_str());
        let value = form_encode(pairs[i].1.as_str());
        let mut one = concat(name.as_str(), "=");
        one.append(value.as_str());
        parts.push(one);
        i = i + 1;
    }
    let r = join(&parts, "&");
    assert(parts@.map_values(|p: String| p@) =~= pair_views(pairs@).map_values(
        |p: (Seq<char>, Seq<char>)| encoded_pair(p.0, p.1),
    ));
    r
}

/// Append `(name, value)` when the value is present.
pub fn push_opt_text(pairs: &mut Vec<(String, String)>, name: &str, value: Option<&str>)
    ensures
        pair_views(final(pairs)@) == pair_views(old(pairs)@) + opt_pair(name@, opt_text(value)),
{
    match value {
        Some(v) => {
            pairs.push((owned(name), owned(v)));
        },
        None => {},
    }
    assert(pair_views(final(pairs)@) =~= pair_views(old(pairs)@) + opt_pair(name@, opt_text(value)));
}

/// Append `(name, decimal value)` when the value is present.
pub fn push_opt_number(pairs: &mut Vec<(String, String)>, name: &str, value: Option<u8>)
    ensures
        pair_views(final(pairs)@) == pair_views(old(pairs)@) + opt_pair(name@, opt_number(value)),
{
    match value {
        Some(v) => {
            pairs.push((owned(name), decimal_string(v as u64)));
        },
        None => {},
    }
    assert(pair_views(final(pairs)@) =~= pair_views(old(pairs)@) + opt_pair(name@, opt_number(value)));
}

} // verus!
