//! CLI error type with stable, sysexits-style exit codes.

use vstd::prelude::*;

use crate::api::error::{api_error_text, ApiError};
use crate::foreign::{io_error_text, json_error_text};
use crate::text::{concat, has_prefix};

verus! {

#[derive(Debug)]
pub enum CliError {
    Api(ApiError),
    Validation(String),
    Config(String),
    Usage(String),
    Io(std::io::Error),
    Json(serde_json::Error),
}

/// Exit code of an error; stable across versions.
pub open spec fn exit_code_spec(e: CliError) -> u8 {
    match e {
        CliError::Api(a) => match a {
            ApiError::Unauthorized => 10,
            ApiError::Validation { .. } => 2,
            ApiError::RateLimited { .. } => 4,
            ApiError::BodyTooLarge { .. } => 3,
            ApiError::NotFound => 3,
            ApiError::ServerError { .. } => 3,
            ApiError::Network { .. } => 3,
            ApiError::Json(_) => 65,
        },
        CliError::Validation(_) => 2,
        CliError::Config(_) => 10,
        CliError::Usage(_) => 64,
        CliError::Io(_) => 74,
        CliError::Json(_) => 65,
    }
}

/// Every exit code is one of the documented ones: 2 (validation), 3
/// (API), 4 (rate limited), 10 (config or auth), 64 (usage), 65 (JSON)
/// and 74 (I/O); none is 0, which is kept for success.
pub proof fn law_exit_codes_documented(e: CliError)
    ensures
        ({
            let c = exit_code_spec(e);
            c == 2 || c == 3 || c == 4 || c == 10 || c == 64 || c == 65 || c == 74
        }),
{
}

/// The message, for every variant whose text the library writes in
/// full (all but the I/O and JSON ones, whose tail comes from outside).
pub open spec fn cli_error_text(e: CliError) -> Seq<char> {
    match e {
        CliError::Api(a) => api_error_text(a),
        CliError::Validation(m) => "validation error: "@ + m@,
        CliError::Config(m) => "config error: "@ + m@,
        CliError::Usage(m) => "usage error: "@ + m@,
        CliError::Io(_) => "io error: "@,
        CliError::Json(_) => "json parse error: "@,
    }
}

/// The variants whose message ends in text written outside the library.
pub open spec fn has_outside_tail(e: CliError) -> bool {
    match e {
        CliError::Api(ApiError::Json(_)) => true,
        CliError::Io(_) => true,
        CliError::Json(_) => true,
        _ => false,
    }
}

impl CliError {
    /// Map to the process exit code.
    pub fn exit_code(&self) -> (c: u8)
        ensures
            c == exit_code_spec(*self),
    {
        match self {
            CliError::Api(e) => match e {
                ApiError::Unauthorized => 10,
                ApiError::Validation { .. } => 2,
                ApiError::RateLimited { .. } => 4,
                ApiError::BodyTooLarge { .. } | ApiError::NotFound | ApiError::ServerError { .. }
                | ApiError::Network { .. } => 3,
                ApiError::Json(_) => 65,
            },
            CliError::Validation(_) => 2,
            CliError::Config(_) => 10,
            CliError::Usage(_) => 64,
            CliError::Io(_) => 74,
            CliError::Json(_) => 65,
        }
    }

    /// The human-readable message (what `Display` prints).
    pub fn message(&self) -> (m: String)
        ensures
            has_outside_tail(*self) ==> has_prefix(m@, cli_error_text(*self)),
            !has_outside_tail(*self) ==> m@ == cli_error_text(*self),
    {
        match self {
            CliError::Api(e) => e.message(),
            CliError::Validation(m) => concat("validation error: ", m.as_str()),
            CliError::Config(m) => concat("config error: ", m.as_str()),
            CliError::Usage(m) => concat("usage error: ", m.as_str()),
            CliError::Io(e) => {
                let t = io_error_text(e);
                let r = concat("io error: ", t.as_str());
                assert(r@.subrange(0, "io error: "@.len() as int) =~= "io error: "@);
                r
            },
            CliError::Json(e) => {
                let t = json_error_text(e);
                let r = concat("json parse error: ", t.as_str());
                assert(r@.subrange(0, "json parse error: "@.len() as int) =~= "json parse error: "@);
                r
            },
        }
    }
}

impl From<ApiError> for CliError {
    fn from(e: ApiError) -> (r: Self) {
        CliError::Api(e)
    }
}

impl vstd::std_specs::convert::FromSpecImpl<ApiError> for CliError {
    open spec fn obeys_from_spec() -> bool {
        true
    }

    open spec fn from_spec(e: ApiError) -> CliError {
        CliError::Api(e)
    }
}

impl From<serde_json::Error> for CliError {
    fn from(e: serde_json::Error) -> (r: Self) {
        CliError::Json(e)
    }
}

impl vstd::std_specs::convert::FromSpecImpl<serde_json::Error> for CliError {
    open spec fn obeys_from_spec() -> bool {
        true
    }

    open spec fn from_spec(e: serde_json::Error) -> CliError {
        CliError::Json(e)
    }
}

impl From<std::io::Error> for CliError {
    fn from(e: std::io::Error) -> (r: Self) {
        CliError::Io(e)
    }
}

impl vstd::std_specs::convert::FromSpecImpl<std::io::Error> for CliError {
    open spec fn obeys_from_spec() -> bool {
        true
    }

    open spec fn from_spec(e: std::io::Error) -> CliError {
        CliError::Io(e)
    }
}

} // verus!
