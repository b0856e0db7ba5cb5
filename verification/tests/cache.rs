use notion_cli::cache::{Cache, TtlLruCache};
use serde_json::Value;

fn v(n: u64) -> Value {
    Value::from(n)
}

#[test]
fn read_after_write_while_fresh() {
    let mut c = TtlLruCache::new(4, 1000);
    c.put("/pages/a".to_string(), v(1), 10);
    assert_eq!(c.get("/pages/a", 500), Some(v(1)));
    assert_eq!(c.get("/pages/a", 1009), Some(v(1)));
    assert_eq!(c.get("/pages/b", 20), None);
}

#[test]
fn stale_entries_miss_and_are_evicted() {
    let mut c = TtlLruCache::with_ttl(100);
    c.put("/k".to_string(), v(7), 0);
    assert_eq!(c.get("/k", 100), None);
    // Evicted: a later read at an earlier clock still misses.
    assert_eq!(c.get("/k", 50), None);
}

#[test]
fn zero_capacity_holds_one() {
    let mut c = TtlLruCache::new(0, 1000);
    c.put("a".to_string(), v(1), 0);
    c.put("b".to_string(), v(2), 0);
    assert_eq!(c.get("a", 1), None);
    assert_eq!(c.get("b", 1), Some(v(2)));
}

#[test]
fn least_recently_used_is_evicted() {
    let mut c = TtlLruCache::new(2, 1000);
    c.put("a".to_string(), v(1), 0);
    c.put("b".to_string(), v(2), 0);
    assert_eq!(c.get("a", 1), Some(v(1)));
    c.put("c".to_string(), v(3), 2);
    assert_eq!(c.get("b", 3), None);
    assert_eq!(c.get("a", 3), Some(v(1)));
    assert_eq!(c.get("c", 3), Some(v(3)));
}

#[test]
fn writes_invalidate_by_prefix() {
    let mut c = TtlLruCache::new(8, 1000);
    c.put("/pages/abc".to_string(), v(1), 0);
    c.put("/pages/abc/properties/x".to_string(), v(2), 0);
    c.put("/pages/abd".to_string(), v(3), 0);
    c.put("/blocks/abc".to_string(), v(4), 0);
    c.invalidate_prefix("/pages/abc");
    assert_eq!(c.get("/pages/abc", 1), None);
    assert_eq!(c.get("/pages/abc/properties/x", 1), None);
    assert_eq!(c.get("/pages/abd", 1), Some(v(3)));
    assert_eq!(c.get("/blocks/abc", 1), Some(v(4)));
}

#[test]
fn overwrite_restamps() {
    let mut c = TtlLruCache::new(2, 100);
    c.put("k".to_string(), v(1), 0);
    c.put("k".to_string(), v(2), 90);
    assert_eq!(c.get("k", 150), Some(v(2)));
}

#[test]
fn full_cache_evicts_least_recently_used() {
    let mut c = TtlLruCache::new(2, 1000);
    c.put("a".to_string(), v(1), 0);
    c.put("b".to_string(), v(2), 0);
    // Reading `a` makes `b` the least recently used.
    assert_eq!(c.get("a", 1), Some(v(1)));
    c.put("c".to_string(), v(3), 2);
    assert_eq!(c.get("b", 3), None);
    assert_eq!(c.get("a", 3), Some(v(1)));
    assert_eq!(c.get("c", 3), Some(v(3)));
    // Rewriting `a` makes `c` the least recently used.
    c.put("a".to_string(), v(4), 4);
    c.put("d".to_string(), v(5), 5);
    assert_eq!(c.get("c", 6), None);
    assert_eq!(c.get("a", 6), Some(v(4)));
}
