//! Declarations of outside types and the trusted calls made on them.
//!
//! Everything in this file is believed by the verifier without proof;
//! each item says which outside function it stands for.

use vstd::prelude::*;

verus! {

/// `serde_json::Value`: opaque JSON payloads (filters, property maps,
/// block bodies) that the library carries without looking inside.
#[verifier::external_type_specification]
#[verifier::external_body]
pub struct OpaqueJsonValue(serde_json::Value);

/// `<serde_json::Value as Clone>::clone`: the derived deep copy, equal
/// to the value it copies.
pub assume_specification[ <serde_json::Value as std::clone::Clone>::clone ](
    v: &serde_json::Value,
) -> (r: serde_json::Value)
    ensures
        r == *v,
;

/// `serde_json::Error`: carried inside error variants.
#[verifier::external_type_specification]
#[verifier::external_body]
pub struct OpaqueJsonError(serde_json::Error);

/// `std::io::Error`: carried inside the CLI error.
#[verifier::external_type_specification]
#[verifier::external_body]
pub struct OpaqueIoError(std::io::Error);

/// `std::path::PathBuf`: file paths taken from the command line.
#[verifier::external_type_specification]
#[verifier::external_body]
pub struct OpaquePathBuf(std::path::PathBuf);

/// `anyhow::Error`: the error type of the telemetry bootstrap.
#[verifier::external_type_specification]
#[verifier::external_body]
pub struct OpaqueAnyhowError(anyhow::Error);

/// Text of a `serde_json::Error` (its `Display`). Nothing is claimed
/// about the wording, which serde_json decides.
#[verifier::external_body]
pub(crate) fn json_error_text(e: &serde_json::Error) -> String {
    e.to_string()
}

/// Text of a `std::io::Error` (its `Display`). Nothing is claimed
/// about the wording, which the platform decides.
#[verifier::external_body]
pub(crate) fn io_error_text(e: &std::io::Error) -> String {
    e.to_string()
}

/// The result of `String::from_utf8_lossy` on given bytes.
pub uninterp spec fn utf8_lossy(bytes: Seq<u8>) -> Seq<char>;

/// `String::from_utf8_lossy`: valid UTF-8 decodes unchanged; invalid
/// sequences become U+FFFD (that part is only named, not spelled out).
#[verifier::external_body]
pub(crate) fn lossy_text(bytes: &[u8]) -> (s: String)
    ensures
        s@ == utf8_lossy(bytes@),
        vstd::utf8::valid_utf8(bytes@) ==> s@ == vstd::utf8::decode_utf8(bytes@),
{
    String::from_utf8_lossy(bytes).into_owned()
}

/// `String::from_utf8`, its error dropped: the text exactly when the
/// bytes are valid UTF-8, decoded as UTF-8.
#[verifier::external_body]
pub(crate) fn utf8_text(bytes: Vec<u8>) -> (r: Option<String>)
    ensures
        r is Some <==> vstd::utf8::valid_utf8(bytes@),
        r matches Some(t) ==> t@ == vstd::utf8::decode_utf8(bytes@),
{
    String::from_utf8(bytes).ok()
}

/// The `Duration` that `Duration::from_secs` builds.
pub uninterp spec fn duration_of_secs(secs: u64) -> std::time::Duration;

/// `Duration::from_secs`.
#[verifier::external_body]
pub(crate) fn duration_from_secs(secs: u64) -> (d: std::time::Duration)
    ensures
        d == duration_of_secs(secs),
{
    std::time::Duration::from_secs(secs)
}

/// A lower-case hexadecimal digit.
pub open spec fn hex_digit(d: int) -> char {
    seq!['0', '1', '2', '3', '4', '5', '6', '7', '8', '9', 'a', 'b', 'c', 'd', 'e', 'f'][d]
}

/// How serde_json writes one character inside a string literal: `"`
/// and `\` behind a backslash; backspace, tab, line feed, form feed and
/// carriage return as `\b`, `\t`, `\n`, `\f`, `\r`; the other
/// control characters below U+0020 as `\u00` and two hex digits; every
/// other character as it is.
pub open spec fn json_escape_char(c: char) -> Seq<char> {
    let n = c as int;
    if c == '"' {
        seq!['\\', '"']
    } else if c == '\\' {
        seq!['\\', '\\']
    } else if n == 0x08 {
        seq!['\\', 'b']
    } else if n == 0x09 {
        seq!['\\', 't']
    } else if n == 0x0a {
        seq!['\\', 'n']
    } else if n == 0x0c {
        seq!['\\', 'f']
    } else if n == 0x0d {
        seq!['\\', 'r']
    } else if n < 0x20 {
        seq!['\\', 'u', '0', '0', hex_digit(n / 16), hex_digit(n % 16)]
    } else {
        seq![c]
    }
}

/// The characters of a string, each escaped.
pub open spec fn json_escaped(s: Seq<char>) -> Seq<char>
    decreases s.len(),
{
    if s.len() == 0 {
        Seq::empty()
    } else {
        json_escaped(s.drop_last()) + json_escape_char(s.last())
    }
}

/// The JSON string literal serde_json writes for a string: the escaped
/// characters between double quotes.
pub open spec fn json_string_literal(s: Seq<char>) -> Seq<char> {
    seq!['"'] + json_escaped(s) + seq!['"']
}

/// `serde_json::to_string` on a string slice. It succeeds on every
/// string: serde_json serialises a `str` by writing its escaped bytes
/// into a `Vec<u8>`, and its only error path there is an I/O error of
/// that writer, which a `Vec<u8>` never returns. The text is the JSON
/// string literal of the argument, escaped by serde_json's table
/// (`ESCAPE` and `write_char_escape` in its `ser.rs`) as stated above.
#[verifier::external_body]
pub(crate) fn quote_json(s: &str) -> (r: Result<String, serde_json::Error>)
    ensures
        r is Ok,
        r matches Ok(q) ==> q@ == json_string_literal(s@),
{
    serde_json::to_string(s)
}

/// Whether `serde_json::from_str::<serde_json::Value>` accepts a text:
/// well-formed JSON within serde_json's nesting limit (only named here).
pub uninterp spec fn serde_json_accepts(text: Seq<char>) -> bool;

/// `serde_json::from_str` into a `serde_json::Value`. It succeeds exactly
/// on the texts serde_json accepts; the value it builds is left unsaid
/// (a JSON value has no model in the library).
#[verifier::external_body]
pub(crate) fn json_from_str(text: &str) -> (r: Result<serde_json::Value, serde_json::Error>)
    ensures
        r is Ok <==> serde_json_accepts(text@),
{
    serde_json::from_str(text)
}

// === application/x-www-form-urlencoded ====================================

/// Bytes that the form serializer copies unchanged.
pub open spec fn form_byte_unchanged(b: u8) -> bool {
    ||| b == 42 || b == 45 || b == 46 || b == 95
    ||| (48 <= b && b <= 57)
    ||| (65 <= b && b <= 90)
    ||| (97 <= b && b <= 122)
}

pub open spec fn hex_digit_upper(d: u8) -> char {
    if d < 10 {
        (d + 48) as char
    } else {
        (d + 55) as char
    }
}

/// One byte as the serializer writes it: itself, `+` for a space, or
/// `%XX` with upper-case hex digits.
pub open spec fn form_byte(b: u8) -> Seq<char> {
    if form_byte_unchanged(b) {
        seq![b as char]
    } else if b == 32 {
        seq!['+']
    } else {
        seq!['%', hex_digit_upper(b / 16), hex_digit_upper(b % 16)]
    }
}

pub open spec fn form_bytes(bs: Seq<u8>) -> Seq<char>
    decreases bs.len(),
{
    if bs.len() == 0 {
        Seq::empty()
    } else {
        form_bytes(bs.drop_last()) + form_byte(bs.last())
    }
}

/// `form_urlencoded::byte_serialize` over the UTF-8 bytes of a string,
/// collected into a `String`: every byte mapped by `form_byte`.
#[verifier::external_body]
pub(crate) fn form_encode(s: &str) -> (r: String)
    ensures
        r@ == form_bytes(vstd::utf8::encode_utf8(s@)),
{
    url::form_urlencoded::byte_serialize(s.as_bytes()).collect()
}

} // verus!
