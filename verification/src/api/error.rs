//! API-layer error types, their messages, and the remediation hints.
//!
//! No variant ever carries the Authorization header, the raw token or
//! the full request URL.

use vstd::prelude::*;

use crate::foreign::{json_error_text, lossy_text, utf8_lossy};
use crate::text::{
    chars_of, concat, contains_str, decimal, decimal_string, eq_ignore_case, has_prefix, has_sub,
    lemma_lower_upper, lower_seq, lowercase, owned, upper_seq,
};

verus! {

#[derive(Debug)]
pub enum ApiError {
    Unauthorized,
    NotFound,
    RateLimited { retry_after: Option<u64> },
    Validation { code: String, message: String },
    ServerError { status: u16, message: String },
    BodyTooLarge { limit_bytes: usize },
    Json(serde_json::Error),
    Network { kind: &'static str, message: String },
}

/// The `code` / `message` pair of a Notion error body, when the body
/// parsed as one.
#[derive(Debug)]
pub struct NotionErrorBody {
    pub code: Option<String>,
    pub message: Option<String>,
}

// === Hint texts ============================================================

pub const HINT_WIKI: &'static str = "Notion wiki databases cannot have additional data sources. Use the existing data source (`notion-cli db get <id>` → `data_sources[0].id`) to add pages instead.";

pub const HINT_MISSING_PROPERTY: &'static str = "Property name must exactly match the data source schema. Run `notion-cli ds get <data_source_id>` to list valid property names.";

pub const HINT_ARCHIVED: &'static str =
    "Parent page/database is archived or in trash. Restore it in Notion UI before writing.";

pub const HINT_TYPE_MISMATCH: &'static str = "Property value type mismatch with schema. Run `notion-cli schema property-value --pretty` for the correct shape per type.";

pub const HINT_SHARE: &'static str =
    "Share the target with your integration: Notion UI → ⋯ → Connections → add integration.";

pub const HINT_IMMUTABLE_BLOCK: &'static str =
    "This block type cannot be edited after creation. Delete and re-append instead.";

pub const HINT_TARGET_NOT_SHARED: &'static str = "The target data source is not shared with this integration. Open the target's Share menu and add the integration.";

pub const HINT_WIKI_PARENT: &'static str = "Wikis cannot parent databases directly. Create a regular page first and add the database there.";

pub const HINT_SYNCED: &'static str = "A synced block or reference holds a property with this name. Rename the property or remove the synced reference.";

pub const HINT_MOVE: &'static str = "Page moves require (a) source is a regular page (not database), (b) integration has edit access to new parent, (c) same workspace as source.";

pub const HINT_WORKSPACE_TOKEN: &'static str = "Workspace-level operations (like moving databases to workspace root) require an OAuth user token. Integration tokens typically receive 403 here.";

pub const HINT_PROPERTY_ID: &'static str = "Property ID passed via --properties / filter_properties is invalid. Property IDs are the internal Notion identifiers, not display names. Retrieve the page without --properties first to see valid IDs.";

pub const TEXT_UNAUTHORIZED: &'static str = "request unauthorized — verify NOTION_TOKEN is set to a valid Internal Integration Token from https://www.notion.so/my-integrations";

pub const TEXT_NOT_FOUND: &'static str = "resource not found — the integration may lack access. In Notion UI: open the page/database → ⋯ menu → Connections → add your integration.";

// === Hint rules ============================================================

/// The hint for a Notion `validation_error`, by the first rule that
/// matches the ASCII-lowercased message (or, for one rule, the code).
pub open spec fn validation_hint_spec(code: Seq<char>, message: Seq<char>) -> Option<Seq<char>> {
    let msg = lower_seq(message);
    if has_sub(msg, "can't add data sources to a wiki"@) || has_sub(msg, "data sources to a wiki"@) {
        Some(HINT_WIKI@)
    } else if has_sub(msg, "is not a property that exists"@) {
        Some(HINT_MISSING_PROPERTY@)
    } else if has_sub(msg, "archived"@) && (has_sub(msg, "parent"@) || has_sub(msg, "cannot"@)) {
        Some(HINT_ARCHIVED@)
    } else if has_sub(msg, "expected"@) && has_sub(msg, "got"@) {
        Some(HINT_TYPE_MISMATCH@)
    } else if code == "object_not_found"@ {
        Some(HINT_SHARE@)
    } else if has_sub(msg, "block type"@) && (has_sub(msg, "cannot be updated"@) || has_sub(
        msg,
        "immutable"@,
    )) {
        Some(HINT_IMMUTABLE_BLOCK@)
    } else if has_sub(msg, "target data source not shared with integration"@) {
        Some(HINT_TARGET_NOT_SHARED@)
    } else if has_sub(msg, "cannot create database under wiki"@) {
        Some(HINT_WIKI_PARENT@)
    } else if has_sub(msg, "property name conflicts with synced content"@) {
        Some(HINT_SYNCED@)
    } else if has_sub(msg, "cannot move page"@) {
        Some(HINT_MOVE@)
    } else {
        None
    }
}

/// The hint for an HTTP-level failure.
pub open spec fn server_error_hint_spec(status: u16, message: Seq<char>) -> Option<Seq<char>> {
    let msg = lower_seq(message);
    if status == 403 && (has_sub(msg, "workspace"@) || has_sub(msg, "workspace_id"@)) {
        Some(HINT_WORKSPACE_TOKEN@)
    } else if (has_sub(msg, "filter_properties"@) || has_sub(msg, "not found"@)) && (status == 404
        || has_sub(msg, "404"@)) {
        Some(HINT_PROPERTY_ID@)
    } else {
        None
    }
}

/// Hints do not depend on the case of the message: two messages that
/// agree up to ASCII case (an upper-cased one among them) get the same
/// hint; and the code matters only when it is `object_not_found`.
pub proof fn law_hints_ignore_case_and_code(
    status: u16,
    c1: Seq<char>,
    c2: Seq<char>,
    m1: Seq<char>,
    m2: Seq<char>,
)
    ensures
        eq_ignore_case(m1, m2) ==> validation_hint_spec(c1, m1) == validation_hint_spec(c1, m2),
        eq_ignore_case(m1, m2) ==> server_error_hint_spec(status, m1) == server_error_hint_spec(
            status,
            m2,
        ),
        validation_hint_spec(c1, upper_seq(m1)) == validation_hint_spec(c1, m1),
        server_error_hint_spec(status, upper_seq(m1)) == server_error_hint_spec(status, m1),
        c1 != "object_not_found"@ && c2 != "object_not_found"@ ==> validation_hint_spec(c1, m1)
            == validation_hint_spec(c2, m1),
{
    lemma_lower_upper(m1);
}

/// Map common Notion `validation_error` signals to a one-line hint;
/// `None` when no rule matches.
pub fn validation_hint(code: &str, message: &str) -> (r: Option<&'static str>)
    ensures
        r matches Some(h) ==> validation_hint_spec(code@, message@) == Some(h@),
        r is None ==> validation_hint_spec(code@, message@) is None,
{
    let msg = lowercase(&chars_of(message));
    if contains_str(&msg, "can't add data sources to a wiki") || contains_str(
        &msg,
        "data sources to a wiki",
    ) {
        return Some(HINT_WIKI);
    }
    if contains_str(&msg, "is not a property that exists") {
        return Some(HINT_MISSING_PROPERTY);
    }
    if contains_str(&msg, "archived") && (contains_str(&msg, "parent") || contains_str(
        &msg,
        "cannot",
    )) {
        return Some(HINT_ARCHIVED);
    }
    if contains_str(&msg, "expected") && contains_str(&msg, "got") {
        return Some(HINT_TYPE_MISMATCH);
    }
    let code_v = chars_of(code);
    let target_v = chars_of("object_not_found");
    if code_v.len() == target_v.len() && crate::text::matches_at(&code_v, &target_v, 0) {
        assert(code_v@.subrange(0, target_v@.len() as int) =~= code_v@);
        return Some(HINT_SHARE);
    }
    assert(code@ != "object_not_found"@) by {
        if code@ == "object_not_found"@ {
            assert(code_v@.subrange(0, target_v@.len() as int) =~= target_v@);
        }
    }
    if contains_str(&msg, "block type") && (contains_str(&msg, "cannot be updated")
        || contains_str(&msg, "immutable")) {
        return Some(HINT_IMMUTABLE_BLOCK);
    }
    if contains_str(&msg, "target data source not shared with integration") {
        return Some(HINT_TARGET_NOT_SHARED);
    }
    if contains_str(&msg, "cannot create database under wiki") {
        return Some(HINT_WIKI_PARENT);
    }
    if contains_str(&msg, "property name conflicts with synced content") {
        return Some(HINT_SYNCED);
    }
    if contains_str(&msg, "cannot move page") {
        return Some(HINT_MOVE);
    }
    None
}

/// Map HTTP-level errors (status + message) to a one-line hint.
pub fn server_error_hint(status: u16, message: &str) -> (r: Option<&'static str>)
    ensures
        r matches Some(h) ==> server_error_hint_spec(status, message@) == Some(h@),
        r is None ==> server_error_hint_spec(status, message@) is None,
{
    let msg = lowercase(&chars_of(message));
    if status == 403 && (contains_str(&msg, "workspace") || contains_str(&msg, "workspace_id")) {
        return Some(HINT_WORKSPACE_TOKEN);
    }
    if (contains_str(&msg, "filter_properties") || contains_str(&msg, "not found")) && (status
        == 404 || contains_str(&msg, "404")) {
        return Some(HINT_PROPERTY_ID);
    }
    None
}

// === Messages ==============================================================

/// `{:?}` of an `Option<u64>`.
pub open spec fn debug_option_u64(v: Option<u64>) -> Seq<char> {
    match v {
        Some(n) => "Some("@ + decimal(n as nat) + ")"@,
        None => "None"@,
    }
}

/// The text shown for a validation error, hint line included.
pub open spec fn validation_text(code: Seq<char>, message: Seq<char>) -> Seq<char> {
    "Notion validation error ["@ + code + "]: "@ + message + match validation_hint_spec(
        code,
        message,
    ) {
        Some(h) => "\n  → hint: "@ + h,
        None => Seq::empty(),
    }
}

/// The text shown for a server error, hint line included.
pub open spec fn server_error_text(status: u16, message: Seq<char>) -> Seq<char> {
    "Notion server error (HTTP "@ + decimal(status as nat) + "): "@ + message + match
        server_error_hint_spec(status, message) {
        Some(h) => "\n  → hint: "@ + h,
        None => Seq::empty(),
    }
}

/// The text of every variant but `Json`, whose tail is serde_json's.
pub open spec fn api_error_text(e: ApiError) -> Seq<char> {
    match e {
        ApiError::Unauthorized => TEXT_UNAUTHORIZED@,
        ApiError::NotFound => TEXT_NOT_FOUND@,
        ApiError::RateLimited { retry_after } => "rate limited (retry after "@ + debug_option_u64(
            retry_after,
        ) + "s)"@,
        ApiError::Validation { code, message } => validation_text(code@, message@),
        ApiError::ServerError { status, message } => server_error_text(status, message@),
        ApiError::BodyTooLarge { limit_bytes } => "response body exceeded cap of "@ + decimal(
            limit_bytes as nat,
        ) + " bytes"@,
        ApiError::Json(_) => "malformed JSON response: "@,
        ApiError::Network { kind, message } => "network error ("@ + kind@ + "): "@ + message@,
    }
}

fn debug_option_text(v: Option<u64>) -> (r: String)
    ensures
        r@ == debug_option_u64(v),
{
    match v {
        Some(n) => {
            let d = decimal_string(n);
            let mut r = concat("Some(", d.as_str());
            r.append(")");
            r
        },
        None => owned("None"),
    }
}

impl ApiError {
    /// Build a `Network` error.
    pub fn network(kind: &'static str, message: String) -> (e: Self)
        ensures
            e == (ApiError::Network { kind, message }),
    {
        ApiError::Network { kind, message }
    }

    /// The human-readable message (what `Display` prints).
    pub fn message(&self) -> (m: String)
        ensures
            match self {
                ApiError::Json(_) => has_prefix(m@, api_error_text(*self)),
                _ => m@ == api_error_text(*self),
            },
    {
        match self {
            ApiError::Unauthorized => owned(TEXT_UNAUTHORIZED),
            ApiError::NotFound => owned(TEXT_NOT_FOUND),
            ApiError::RateLimited { retry_after } => {
                let d = debug_option_text(*retry_after);
                let mut r = concat("rate limited (retry after ", d.as_str());
                r.append("s)");
                r
            },
            ApiError::Validation { code, message } => {
                let mut r = concat("Notion validation error [", code.as_str());
                r.append("]: ");
                r.append(message.as_str());
                match validation_hint(code.as_str(), message.as_str()) {
                    Some(h) => {
                        r.append("\n  → hint: ");
                        r.append(h);
                    },
                    None => {},
                }
                r
            },
            ApiError::ServerError { status, message } => {
                let d = decimal_string(*status as u64);
                let mut r = concat("Notion server error (HTTP ", d.as_str());
                r.append("): ");
                r.append(message.as_str());
                match server_error_hint(*status, message.as_str()) {
                    Some(h) => {
                        r.append("\n  → hint: ");
                        r.append(h);
                    },
                    None => {},
                }
                r
            },
            ApiError::BodyTooLarge { limit_bytes } => {
                let d = decimal_string(*limit_bytes as u64);
                let mut r = concat("response body exceeded cap of ", d.as_str());
                r.append(" bytes");
                r
            },
            ApiError::Json(e) => {
                let t = json_error_text(e);
                let r = concat("malformed JSON response: ", t.as_str());
                assert(r@.subrange(0, "malformed JSON response: "@.len() as int)
                    =~= "malformed JSON response: "@);
                r
            },
            ApiError::Network { kind, message } => {
                let mut r = concat("network error (", kind);
                r.append("): ");
                r.append(message.as_str());
                r
            },
        }
    }
}

// === Classification ========================================================

/// `http_<status>`, the code used when Notion sent none.
pub open spec fn http_code(status: u16) -> Seq<char> {
    "http_"@ + decimal(status as nat)
}

/// The error a non-success response maps to, given what its body
/// parsed as (`parsed`) and the body's lossy text (`body_text`).
pub open spec fn classify_spec(
    status: u16,
    parsed: Option<(Option<Seq<char>>, Option<Seq<char>>)>,
    body_text: Seq<char>,
) -> (u16, Seq<char>, Seq<char>) {
    let message = match parsed {
        Some((_, Some(m))) => m,
        _ => body_text,
    };
    let code = match parsed {
        Some((Some(c), _)) => c,
        _ => http_code(status),
    };
    (status, code, message)
}

pub open spec fn body_fields(parsed: Option<NotionErrorBody>) -> Option<
    (Option<Seq<char>>, Option<Seq<char>>),
> {
    match parsed {
        Some(b) => Some(
            (
                match b.code {
                    Some(c) => Some(c@),
                    None => None,
                },
                match b.message {
                    Some(m) => Some(m@),
                    None => None,
                },
            ),
        ),
        None => None,
    }
}

/// Whether `e` is the error that `classify_error` gives for `status`
/// with the given code and message.
pub open spec fn classified_as(e: ApiError, status: u16, code: Seq<char>, message: Seq<char>) -> bool {
    if status == 401 {
        e is Unauthorized
    } else if status == 404 {
        e is NotFound
    } else if status == 400 || status == 409 || status == 422 {
        e matches ApiError::Validation { code: c, message: m } && c@ == code && m@ == message
    } else if 500 <= status < 600 {
        e matches ApiError::ServerError { status: s, message: m } && s == status && m@ == message
    } else {
        e matches ApiError::Validation { code: c, message: m } && c@ == http_code(status) && m@
            == message
    }
}

/// Every 5xx status is a server error carrying that status and the
/// response's message, whatever the body's code: a gateway failure
/// (502, 504, …) is never reported as the caller's validation error.
pub proof fn law_5xx_is_server_error(
    e: ApiError,
    status: u16,
    parsed: Option<(Option<Seq<char>>, Option<Seq<char>>)>,
    body_text: Seq<char>,
)
    requires
        500 <= status < 600,
        ({
            let (s, code, message) = classify_spec(status, parsed, body_text);
            classified_as(e, s, code, message)
        }),
    ensures
        e matches ApiError::ServerError { status: s, message: m } && s == status && m@ == (
        match parsed {
            Some((_, Some(msg))) => msg,
            _ => body_text,
        }),
{
}

fn http_code_text(status: u16) -> (r: String)
    ensures
        r@ == http_code(status),
{
    let d = decimal_string(status as u64);
    concat("http_", d.as_str())
}

/// Turn a non-success, non-429 response into an [`ApiError`].
///
/// `parsed` is the body read as a Notion error object (`None` when it
/// is not one); `body` is the raw body, whose lossy text stands in for
/// a missing message.
pub fn classify_error(status: u16, parsed: Option<NotionErrorBody>, body: &[u8]) -> (e: ApiError)
    ensures
        ({
            let (s, code, message) = classify_spec(status, body_fields(parsed), utf8_lossy(body@));
            classified_as(e, s, code, message)
        }),
{
    let (code_opt, message_opt) = match parsed {
        Some(b) => (b.code, b.message),
        None => (None, None),
    };
    let message = match message_opt {
        Some(m) => m,
        None => lossy_text(body),
    };
    let code = match code_opt {
        Some(c) => c,
        None => http_code_text(status),
    };
    if status == 401 {
        ApiError::Unauthorized
    } else if status == 404 {
        ApiError::NotFound
    } else if status == 400 || status == 409 || status == 422 {
        ApiError::Validation { code, message }
    } else if 500 <= status && status < 600 {
        ApiError::ServerError { status, message }
    } else {
        ApiError::Validation { code: http_code_text(status), message }
    }
}

} // verus!
