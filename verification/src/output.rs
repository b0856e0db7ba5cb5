//! Output formatting.
//!
//! Notion-origin payloads are printed inside an untrusted-source
//! envelope (`source`, `trust`, `api_version`, `content`) unless `raw`
//! is set, so that agents reading the output treat `content` as data,
//! not as instructions; `pretty` indents the JSON. A streamed listing
//! prints one frame per line: an item per row, then an end frame, or an
//! error frame where it failed. The library decides what is printed;
//! serialising and printing it is left to the caller.

use vstd::prelude::*;

use crate::api::version::NOTION_API_VERSION;
use crate::text::owned;

verus! {

#[derive(Debug, Clone, Copy, PartialEq, Eq, Structural)]
pub struct OutputOptions {
    pub raw: bool,
    pub pretty: bool,
}

/// The untrusted-source envelope around a Notion payload.
#[derive(Debug)]
pub struct Envelope {
    pub source: String,
    pub trust: String,
    pub api_version: String,
    pub content: serde_json::Value,
}

/// `e` is the envelope of `content`: source `notion`, trust
/// `untrusted`, the pinned API version.
pub open spec fn envelope_of(e: Envelope, content: serde_json::Value) -> bool {
    &&& e.source@ == "notion"@
    &&& e.trust@ == "untrusted"@
    &&& e.api_version@ == NOTION_API_VERSION@
    &&& e.content == content
}

/// Wrap a payload in the untrusted envelope.
pub fn wrap_untrusted(content: serde_json::Value) -> (e: Envelope)
    ensures
        envelope_of(e, content),
{
    Envelope {
        source: owned("notion"),
        trust: owned("untrusted"),
        api_version: owned(NOTION_API_VERSION),
        content,
    }
}

/// What is printed for a payload.
#[derive(Debug)]
pub enum Output {
    /// `--raw`: the payload as it is.
    Raw(serde_json::Value),
    /// The payload inside the untrusted envelope.
    Enveloped(Envelope),
}

/// The payload as printed: raw when asked, else enveloped.
pub fn output_value(raw: bool, v: serde_json::Value) -> (o: Output)
    ensures
        raw ==> o == Output::Raw(v),
        !raw ==> (o matches Output::Enveloped(e) && envelope_of(e, v)),
{
    if raw {
        Output::Raw(v)
    } else {
        Output::Enveloped(wrap_untrusted(v))
    }
}

/// One line of a streamed listing.
#[derive(Debug)]
pub enum StreamFrame {
    /// `{"type":"item","content":…}`: one row.
    Item { content: serde_json::Value },
    /// `{"type":"end","cursor":…}`: the listing finished cleanly.
    End { cursor: Option<String> },
    /// `{"type":"error","at_cursor":…,"code":…,"message":…}`: the
    /// listing failed after the page at `at_cursor`.
    Error { at_cursor: Option<String>, code: String, message: String },
}

pub open spec fn opt_view(s: Option<&str>) -> Option<Seq<char>> {
    match s {
        Some(t) => Some(t@),
        None => None,
    }
}

pub open spec fn opt_string_view(s: Option<String>) -> Option<Seq<char>> {
    match s {
        Some(t) => Some(t@),
        None => None,
    }
}

fn opt_owned(s: Option<&str>) -> (r: Option<String>)
    ensures
        opt_string_view(r) == opt_view(s),
{
    match s {
        Some(t) => Some(owned(t)),
        None => None,
    }
}

/// The frame for one row.
pub fn stream_item(content: serde_json::Value) -> (f: StreamFrame)
    ensures
        f == (StreamFrame::Item { content }),
{
    StreamFrame::Item { content }
}

/// The frame that ends a listing.
pub fn stream_end(next_cursor: Option<&str>) -> (f: StreamFrame)
    ensures
        f matches StreamFrame::End { cursor } && opt_string_view(cursor) == opt_view(next_cursor),
{
    StreamFrame::End { cursor: opt_owned(next_cursor) }
}

/// The frame for a failure in the middle of a listing.
pub fn stream_error(at_cursor: Option<&str>, code: &str, message: &str) -> (f: StreamFrame)
    ensures
        f matches StreamFrame::Error { at_cursor: a, code: c, message: m } && opt_string_view(a)
            == opt_view(at_cursor) && c@ == code@ && m@ == message@,
{
    StreamFrame::Error { at_cursor: opt_owned(at_cursor), code: owned(code), message: owned(message) }
}

} // verus!
