//! GET response cache: entries expire after a time-to-live, and writes
//! invalidate the entries of the entity they change.

pub mod lru;

use vstd::prelude::*;

pub use self::lru::TtlLruCache;

verus! {

/// A cache of JSON responses keyed by request path. Times are
/// milliseconds on a monotonic clock that the caller reads.
pub trait Cache {
    /// The fresh entry for `key`, if any.
    fn get(&mut self, key: &str, now_ms: u64) -> Option<serde_json::Value>;

    /// Store `value` under `key`, stamped `now_ms`.
    fn put(&mut self, key: String, value: serde_json::Value, now_ms: u64);

    /// Drop every entry whose key starts with `prefix`; called after a
    /// write so that stale reads of the same entity do not come back.
    fn invalidate_prefix(&mut self, prefix: &str);
}

} // verus!
