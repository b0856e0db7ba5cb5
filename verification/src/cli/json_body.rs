//! The universal `--json <body>` flag: where the body comes from, and
//! its exclusion of the per-field flags.

use vstd::prelude::*;

use crate::cli::error::CliError;
use crate::foreign::{json_error_text, json_from_str, serde_json_accepts};
use crate::text::{chars_of, concat, join, join_seqs, owned, string_of, sub_vec};

verus! {

/// Where a `--json` argument's text is read from.
#[derive(Debug)]
pub enum JsonBodySource {
    /// `-`: standard input, until EOF.
    Stdin,
    /// `@path`: the contents of a file.
    File(String),
    /// Anything else: the argument is the JSON text.
    Literal(String),
}

/// Classify a `--json` argument.
pub fn json_body_source(raw: &str) -> (s: JsonBodySource)
    ensures
        raw@ == "-"@ ==> s is Stdin,
        raw@ != "-"@ && raw@.len() > 0 && raw@[0] == '@' ==> (s matches JsonBodySource::File(p)
            && p@ == raw@.drop_first()),
        raw@ != "-"@ && !(raw@.len() > 0 && raw@[0] == '@') ==> (s matches JsonBodySource::Literal(
            l,
        ) && l@ == raw@),
{
    let v = chars_of(raw);
    let dash = chars_of("-");
    if v.len() == dash.len() && crate::text::matches_at(&v, &dash, 0) {
        assert(v@.subrange(0, dash@.len() as int) =~= v@);
        return JsonBodySource::Stdin;
    }
    assert(raw@ != "-"@) by {
        if raw@ == "-"@ {
            assert(v@.subrange(0, dash@.len() as int) =~= dash@);
        }
    }
    if v.len() > 0 && v[0] == '@' {
        let rest = sub_vec(&v, 1, v.len());
        assert(rest@ =~= raw@.drop_first());
        return JsonBodySource::File(string_of(&rest));
    }
    JsonBodySource::Literal(owned(raw))
}

/// The names of the flags that are present, in order.
pub open spec fn present_names(flags: Seq<(&str, bool)>) -> Seq<Seq<char>>
    decreases flags.len(),
{
    if flags.len() == 0 {
        Seq::empty()
    } else {
        present_names(flags.drop_last()) + if flags.last().1 {
            seq![flags.last().0@]
        } else {
            Seq::empty()
        }
    }
}

pub open spec fn exclusive_message(names: Seq<Seq<char>>) -> Seq<char> {
    "--json is mutually exclusive with "@ + join_seqs(names, ", "@) + "; remove one"@
}

/// With `--json`, none of the per-field flags may be given; the error
/// names every one that was, and is a validation error (exit 2).
pub fn reject_json_with_bespoke(has_json: bool, bespoke_flags_present: &[(&str, bool)]) -> (r:
    Result<(), CliError>)
    ensures
        !has_json ==> r is Ok,
        has_json && present_names(bespoke_flags_present@).len() == 0 ==> r is Ok,
        has_json && present_names(bespoke_flags_present@).len() > 0 ==> (r matches Err(
            CliError::Validation(m),
        ) && m@ == exclusive_message(present_names(bespoke_flags_present@))),
{
    if !has_json {
        return Ok(());
    }
    let mut names: Vec<String> = Vec::new();
    let mut i: usize = 0;
    while i < bespoke_flags_present.len()
        invariant
            i <= bespoke_flags_present@.len(),
            names@.map_values(|s: String| s@) == present_names(
                bespoke_flags_present@.subrange(0, i as int),
            ),
        decreases bespoke_flags_present@.len() - i,
    {
        let (name, present) = bespoke_flags_present[i];
        let ghost before = names@;
        if present {
            names.push(owned(name));
        }
        proof {
            let sub = bespoke_flags_present@.subrange(0, i + 1);
            assert(sub.drop_last() =~= bespoke_flags_present@.subrange(0, i as int));
            assert(sub.last() == bespoke_flags_present@[i as int]);
            assert(names@.map_values(|s: String| s@) =~= before.map_values(|s: String| s@) + if present {
                seq![name@]
            } else {
                Seq::<Seq<char>>::empty()
            });
        }
        i = i + 1;
    }
    assert(bespoke_flags_present@.subrange(0, bespoke_flags_present@.len() as int)
        =~= bespoke_flags_present@);
    if names.len() == 0 {
        return Ok(());
    }
    let joined = join(&names, ", ");
    let mut m = concat("--json is mutually exclusive with ", joined.as_str());
    m.append("; remove one");
    Err(CliError::Validation(m))
}

/// The prefix of the error for a `--json` text that is not JSON.
pub open spec fn not_json_prefix() -> Seq<char> {
    "--json body: not valid JSON: "@
}

/// Parse the text a `--json` argument stands for (once read from its
/// source): well-formed JSON, or a validation error whose message
/// starts with the `--json body` prefix and ends with serde_json's.
pub fn parse_json_body(text: &str) -> (r: Result<serde_json::Value, CliError>)
    ensures
        r is Ok <==> serde_json_accepts(text@),
        r matches Err(e) ==> (e matches CliError::Validation(m) && crate::text::has_prefix(
            m@,
            not_json_prefix(),
        )),
{
    match json_from_str(text) {
        Ok(v) => Ok(v),
        Err(e) => {
            let t = json_error_text(&e);
            let m = concat("--json body: not valid JSON: ", t.as_str());
            assert(m@.subrange(0, not_json_prefix().len() as int) =~= not_json_prefix());
            Err(CliError::Validation(m))
        },
    }
}

} // verus!
