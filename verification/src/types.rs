//! Value types shared by the request bodies.
//!
//! Notion-shaped payloads that the library passes through without
//! inspecting (property values, block bodies, filters, sorts) are kept
//! as `serde_json::Value`. Only the parts the library decides on are
//! modelled here.

use vstd::prelude::*;

use crate::text::{chars_of, has_prefix, owned, starts_with_str};

verus! {

/// One plain-text rich-text run (`{"type":"text","text":{"content":…}}`).
#[derive(Debug, Clone)]
pub struct RichText {
    pub content: String,
}

impl RichText {
    /// A rich-text array holding `text` as one plain run.
    pub fn plain(text: &str) -> (v: Vec<RichText>)
        ensures
            v@.len() == 1,
            v@[0].content@ == text@,
    {
        let mut v: Vec<RichText> = Vec::new();
        v.push(RichText { content: owned(text) });
        v
    }
}

/// A page or database icon.
#[derive(Debug, Clone)]
pub enum Icon {
    Emoji(String),
    External(String),
}

/// Whether a flag value is a web URL.
pub open spec fn is_web_url(s: Seq<char>) -> bool {
    has_prefix(s, "http://"@) || has_prefix(s, "https://"@)
}

pub fn is_web_url_exec(s: &str) -> (b: bool)
    ensures
        b == is_web_url(s@),
{
    starts_with_str(s, "http://") || starts_with_str(s, "https://")
}

/// `i` is the icon a CLI value stands for: an `http(s)://` URL is an
/// external icon, anything else an emoji.
pub open spec fn icon_for(value: Seq<char>, i: Icon) -> bool {
    if is_web_url(value) {
        i matches Icon::External(u) && u@ == value
    } else {
        i matches Icon::Emoji(e) && e@ == value
    }
}

impl Icon {
    /// Icon from a CLI value: an `http(s)://` URL is an external icon,
    /// anything else an emoji.
    pub fn parse_cli(value: &str) -> (i: Icon)
        ensures
            is_web_url(value@) ==> (i matches Icon::External(u) && u@ == value@),
            !is_web_url(value@) ==> (i matches Icon::Emoji(e) && e@ == value@),
    {
        if is_web_url_exec(value) {
            Icon::External(owned(value))
        } else {
            Icon::Emoji(owned(value))
        }
    }
}

/// A page or database cover image (always an external URL).
#[derive(Debug, Clone)]
pub struct Cover {
    pub url: String,
}

impl Cover {
    pub fn external(url: &str) -> (c: Cover)
        ensures
            c.url@ == url@,
    {
        Cover { url: owned(url) }
    }
}

/// The colours Notion accepts for select options.
#[derive(Debug, Clone, Copy, PartialEq, Eq, Structural)]
pub enum Color {
    Default,
    Gray,
    Brown,
    Orange,
    Yellow,
    Green,
    Blue,
    Purple,
    Pink,
    Red,
}

/// The wire name of each colour.
pub open spec fn color_name(c: Color) -> Seq<char> {
    match c {
        Color::Default => "default"@,
        Color::Gray => "gray"@,
        Color::Brown => "brown"@,
        Color::Orange => "orange"@,
        Color::Yellow => "yellow"@,
        Color::Green => "green"@,
        Color::Blue => "blue"@,
        Color::Purple => "purple"@,
        Color::Pink => "pink"@,
        Color::Red => "red"@,
    }
}

fn same_text(a: &str, b: &str) -> (r: bool)
    ensures
        r == (a@ == b@),
{
    let av = chars_of(a);
    let bv = chars_of(b);
    if av.len() != bv.len() {
        return false;
    }
    let m = crate::text::matches_at(&av, &bv, 0);
    assert(av@.subrange(0, bv@.len() as int) =~= av@);
    m
}

impl Color {
    pub fn wire_name(self) -> (s: &'static str)
        ensures
            s@ == color_name(self),
    {
        match self {
            Color::Default => "default",
            Color::Gray => "gray",
            Color::Brown => "brown",
            Color::Orange => "orange",
            Color::Yellow => "yellow",
            Color::Green => "green",
            Color::Blue => "blue",
            Color::Purple => "purple",
            Color::Pink => "pink",
            Color::Red => "red",
        }
    }

    /// The colour with this wire name, if any.
    pub fn from_name(s: &str) -> (r: Option<Color>)
        ensures
            r matches Some(c) ==> color_name(c) == s@,
            r is None ==> forall|c: Color| color_name(c) != s@,
    {
        if same_text(s, "default") {
            Some(Color::Default)
        } else if same_text(s, "gray") {
            Some(Color::Gray)
        } else if same_text(s, "brown") {
            Some(Color::Brown)
        } else if same_text(s, "orange") {
            Some(Color::Orange)
        } else if same_text(s, "yellow") {
            Some(Color::Yellow)
        } else if same_text(s, "green") {
            Some(Color::Green)
        } else if same_text(s, "blue") {
            Some(Color::Blue)
        } else if same_text(s, "purple") {
            Some(Color::Purple)
        } else if same_text(s, "pink") {
            Some(Color::Pink)
        } else if same_text(s, "red") {
            Some(Color::Red)
        } else {
            None
        }
    }
}

/// An option of a select, multi-select or status property.
#[derive(Debug, Clone)]
pub struct SelectOption {
    pub id: Option<String>,
    pub name: String,
    pub color: Option<Color>,
}

/// A property schema: its type name (`title`, `select`, …) and the
/// full definition as sent to Notion.
#[derive(Debug, Clone)]
pub struct PropertySchema {
    pub kind: String,
    pub definition: serde_json::Value,
}

impl PropertySchema {
    /// Whether this is the title property.
    pub fn is_title(&self) -> (b: bool)
        ensures
            b == (self.kind@ == "title"@),
    {
        same_text(self.kind.as_str(), "title")
    }
}

} // verus!
