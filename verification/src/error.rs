//! Crate-level error for identifier parsing.

use vstd::prelude::*;

use crate::text::concat;

verus! {

/// Why an identifier could not be accepted.
#[derive(Debug)]
pub enum IdError {
    InvalidId { reason: &'static str },
    InvalidUrl(String),
}

pub open spec fn invalid_id_prefix() -> Seq<char> {
    "invalid Notion ID: "@
}

pub open spec fn invalid_url_prefix() -> Seq<char> {
    "could not extract Notion ID from URL: "@
}

impl IdError {
    pub open spec fn message_spec(&self) -> Seq<char> {
        match self {
            IdError::InvalidId { reason } => invalid_id_prefix() + reason@,
            IdError::InvalidUrl(u) => invalid_url_prefix() + u@,
        }
    }

    /// The human-readable message (what `Display` prints).
    pub fn message(&self) -> (m: String)
        ensures
            m@ == self.message_spec(),
    {
        match self {
            IdError::InvalidId { reason } => concat("invalid Notion ID: ", reason),
            IdError::InvalidUrl(u) => concat("could not extract Notion ID from URL: ", u.as_str()),
        }
    }
}

} // verus!
