//! LRU cache backend with a time-to-live per entry, on top of the `lru`
//! crate's bounded least-recently-used map.

use vstd::prelude::*;

use crate::cache::Cache;
use crate::text::{has_prefix, starts_with_str};

verus! {

/// An entry: when it was stored (milliseconds) and the response.
pub type Entry = (u64, serde_json::Value);

/// `lru::LruCache`: a map bounded by its capacity, which evicts its
/// least recently used entry to make room.
#[verifier::external_type_specification]
#[verifier::external_body]
#[verifier::reject_recursive_types(K)]
#[verifier::reject_recursive_types(V)]
#[verifier::reject_recursive_types(S)]
pub struct ExLruCache<K, V, S>(lru::LruCache<K, V, S>);

/// `lru::DefaultHasher`: the hasher the cache's map is built with.
#[verifier::external_type_specification]
#[verifier::external_body]
pub struct ExLruDefaultHasher(lru::DefaultHasher);

/// What an `lru::LruCache` of entries holds, by key.
pub uninterp spec fn lru_contents(c: lru::LruCache<String, Entry>) -> Map<Seq<char>, Entry>;

/// The capacity an `lru::LruCache` was made with.
pub uninterp spec fn lru_capacity(c: lru::LruCache<String, Entry>) -> nat;

/// The keys an `lru::LruCache` holds, from the most recently used to
/// the least (the order of its linked list, head to tail).
pub uninterp spec fn lru_order(c: lru::LruCache<String, Entry>) -> Seq<Seq<char>>;

/// The contents are finite and within the capacity, and the recency
/// order lists each key held exactly once.
pub open spec fn lru_bounded(c: lru::LruCache<String, Entry>) -> bool {
    &&& lru_contents(c).dom().finite()
    &&& lru_contents(c).dom().len() <= lru_capacity(c)
    &&& lru_capacity(c) >= 1
    &&& lru_order(c).no_duplicates()
    &&& lru_order(c).to_set() == lru_contents(c).dom()
}

/// The keys other than `k`.
pub open spec fn not_key(k: Seq<char>) -> spec_fn(Seq<char>) -> bool {
    |x: Seq<char>| x != k
}

/// A recency order without `k`.
pub open spec fn without_key(order: Seq<Seq<char>>, k: Seq<char>) -> Seq<Seq<char>> {
    order.filter(not_key(k))
}

/// A recency order with `k` moved (or added) to the front: `k` becomes
/// the most recently used.
pub open spec fn to_front(order: Seq<Seq<char>>, k: Seq<char>) -> Seq<Seq<char>> {
    seq![k] + without_key(order, k)
}

proof fn lemma_without_key_twice(order: Seq<Seq<char>>, k: Seq<char>)
    ensures
        without_key(without_key(order, k), k) == without_key(order, k),
    decreases order.len(),
{
    reveal(Seq::filter);
    if order.len() > 0 {
        let p = not_key(k);
        lemma_without_key_twice(order.drop_last(), k);
        let sub = order.drop_last().filter(p);
        assert(sub.filter(p) == sub);
        if p(order.last()) {
            let t = sub.push(order.last());
            assert(order.filter(p) == t);
            assert(t.drop_last() =~= sub);
            assert(t.last() == order.last());
            assert(t.filter(p) == t.drop_last().filter(p).push(t.last()));
        } else {
            assert(order.filter(p) == sub);
        }
    }
}

/// Removing a key after moving it to the front is removing it.
proof fn lemma_front_then_remove(order: Seq<Seq<char>>, k: Seq<char>)
    ensures
        without_key(to_front(order, k), k) == without_key(order, k),
{
    let p = not_key(k);
    without_key(order, k).lemma_filter_prepend(k, p);
    assert(!p(k));
    lemma_without_key_twice(order, k);
    assert(Seq::<Seq<char>>::empty() + without_key(without_key(order, k), k) =~= without_key(
        without_key(order, k),
        k,
    ));
}

/// `LruCache::new` with a capacity of `cap` (at least one): empty.
#[verifier::external_body]
fn lru_new(cap: usize) -> (fresh_cache: lru::LruCache<String, Entry>)
    requires
        cap >= 1,
    ensures
        lru_contents(fresh_cache).dom() == Set::<Seq<char>>::empty(),
        lru_order(fresh_cache) == Seq::<Seq<char>>::empty(),
        lru_capacity(fresh_cache) == cap,
        lru_bounded(fresh_cache),
{
    lru::LruCache::new(std::num::NonZeroUsize::new(cap).unwrap())
}

/// `LruCache::get`, the entry copied out: the entry under `key`, if
/// any. A hit moves the key to the front of the recency order (the
/// list node is detached and attached at the head); what is held does
/// not change.
#[verifier::external_body]
fn lru_get(c: &mut lru::LruCache<String, Entry>, key: &str) -> (r: Option<Entry>)
    requires
        lru_bounded(*old(c)),
    ensures
        lru_contents(*final(c)) == lru_contents(*old(c)),
        lru_capacity(*final(c)) == lru_capacity(*old(c)),
        lru_bounded(*final(c)),
        lru_contents(*old(c)).dom().contains(key@) ==> lru_order(*final(c)) == to_front(
            lru_order(*old(c)),
            key@,
        ),
        !lru_contents(*old(c)).dom().contains(key@) ==> lru_order(*final(c)) == lru_order(*old(c)),
        lru_contents(*old(c)).dom().contains(key@) ==> r == Some(lru_contents(*old(c))[key@]),
        !lru_contents(*old(c)).dom().contains(key@) ==> r is None,
    no_unwind
{
    c.get(key).map(|e| (e.0, e.1.clone()))
}

/// `LruCache::put`: the entry is stored under `key`, replacing the old
/// one, and the key becomes the most recently used; a new key in a full
/// cache evicts the least recently used entry (the tail of the list).
#[verifier::external_body]
fn lru_put(c: &mut lru::LruCache<String, Entry>, key: String, e: Entry)
    requires
        lru_bounded(*old(c)),
    ensures
        lru_capacity(*final(c)) == lru_capacity(*old(c)),
        lru_bounded(*final(c)),
        stored(
            lru_contents(*old(c)),
            lru_order(*old(c)),
            lru_capacity(*old(c)),
            key@,
            e,
            lru_contents(*final(c)),
            lru_order(*final(c)),
        ),
    no_unwind
{
    c.put(key, e);
}

/// `LruCache::pop`: the entry under `key` is removed and handed back.
#[verifier::external_body]
fn lru_pop(c: &mut lru::LruCache<String, Entry>, key: &str) -> (r: Option<Entry>)
    requires
        lru_bounded(*old(c)),
    ensures
        lru_capacity(*final(c)) == lru_capacity(*old(c)),
        lru_contents(*final(c)) == lru_contents(*old(c)).remove(key@),
        lru_order(*final(c)) == without_key(lru_order(*old(c)), key@),
        lru_bounded(*final(c)),
        lru_contents(*old(c)).dom().contains(key@) ==> r == Some(lru_contents(*old(c))[key@]),
        !lru_contents(*old(c)).dom().contains(key@) ==> r is None,
    no_unwind
{
    c.pop(key)
}

/// `LruCache::iter`, keys only: every key held, from the most recently
/// used to the least.
#[verifier::external_body]
fn lru_keys(c: &lru::LruCache<String, Entry>) -> (r: Vec<String>)
    ensures
        r@.map_values(|k: String| k@) == lru_order(*c),
{
    c.iter().map(|(k, _)| k.clone()).collect()
}

/// Capacity when none is given.
pub const DEFAULT_CAPACITY: usize = 128;

/// An entry stamped `stamp` is still fresh at `now` under `ttl`: less
/// time than the TTL has passed (no time has passed if the clock reads
/// earlier than the stamp).
pub open spec fn fresh(stamp: u64, now: u64, ttl: u64) -> bool {
    (if now >= stamp {
        now - stamp
    } else {
        0
    }) < ttl
}

/// The entries whose keys do not start with `prefix`.
pub open spec fn without_prefix(m: Map<Seq<char>, Entry>, prefix: Seq<char>) -> Map<Seq<char>, Entry> {
    m.restrict(m.dom().filter(|k: Seq<char>| !has_prefix(k, prefix)))
}

/// `after` (with recency order `after_order`) is what a cache of
/// capacity `cap` holding `before` (recency order `order`) holds once
/// `e` is stored under `key`: the entry is added or replaced and `key`
/// becomes the most recently used; when a new key finds the cache full,
/// the least recently used entry (the last of `order`) is evicted.
pub open spec fn stored(
    before: Map<Seq<char>, Entry>,
    order: Seq<Seq<char>>,
    cap: nat,
    key: Seq<char>,
    e: Entry,
    after: Map<Seq<char>, Entry>,
    after_order: Seq<Seq<char>>,
) -> bool {
    if before.dom().contains(key) || before.dom().len() < cap {
        after == before.insert(key, e) && after_order == to_front(order, key)
    } else {
        after == before.remove(order.last()).insert(key, e) && after_order == seq![key]
            + order.drop_last()
    }
}

/// A read after a write gives back what was written while the entry is
/// fresh: whatever else a store evicts, the stored key holds the new
/// entry; and once the TTL has passed, the entry reads as a miss.
pub proof fn law_cache_read_after_write(
    before: Map<Seq<char>, Entry>,
    order: Seq<Seq<char>>,
    cap: nat,
    key: Seq<char>,
    value: serde_json::Value,
    stamp: u64,
    after: Map<Seq<char>, Entry>,
    after_order: Seq<Seq<char>>,
)
    requires
        order.to_set() == before.dom(),
        cap >= 1,
        stored(before, order, cap, key, (stamp, value), after, after_order),
    ensures
        after_order.len() > 0 && after_order[0] == key,
        !(before.dom().contains(key) || before.dom().len() < cap) ==> before.dom().contains(
            order.last(),
        ) && !after.dom().contains(order.last()),
        after.dom().contains(key),
        after[key] == (stamp, value),
        forall|k: Seq<char>|
            #![trigger after.dom().contains(k)]
            k != key && after.dom().contains(k) ==> before.dom().contains(k) && after[k] == before[k],
{
    if !(before.dom().contains(key) || before.dom().len() < cap) {
        assert(before.dom() != Set::<Seq<char>>::empty());
        let x = before.dom().choose();
        assert(before.dom().contains(x));
        assert(order.to_set().contains(x));
        assert(order.len() > 0);
        assert(order.to_set().contains(order[order.len() - 1]));
    }
}

/// Staleness is monotone: an entry that is no longer fresh at some time
/// stays stale at every later time.
pub proof fn law_cache_staleness_monotone(stamp: u64, t1: u64, t2: u64, ttl: u64)
    requires
        t1 <= t2,
        !fresh(stamp, t1, ttl),
    ensures
        !fresh(stamp, t2, ttl),
{
}

/// A bounded LRU cache whose entries expire `ttl_ms` after they were
/// stored.
pub struct TtlLruCache {
    inner: lru::LruCache<String, Entry>,
    ttl_ms: u64,
}

impl TtlLruCache {
    #[verifier::type_invariant]
    closed spec fn inv(self) -> bool {
        lru_bounded(self.inner)
    }

    /// What the cache holds, by key.
    pub closed spec fn entries(&self) -> Map<Seq<char>, Entry> {
        lru_contents(self.inner)
    }

    /// The keys held, from the most recently used to the least.
    pub closed spec fn recency(&self) -> Seq<Seq<char>> {
        lru_order(self.inner)
    }

    /// How many entries the cache keeps at most.
    pub closed spec fn capacity(&self) -> nat {
        lru_capacity(self.inner)
    }

    pub closed spec fn ttl(&self) -> u64 {
        self.ttl_ms
    }

    /// An empty cache of the given capacity (at least one) and TTL.
    pub fn new(capacity: usize, ttl_ms: u64) -> (c: Self)
        ensures
            c.entries() == Map::<Seq<char>, Entry>::empty(),
            c.recency() == Seq::<Seq<char>>::empty(),
            c.capacity() == if capacity >= 1 {
                capacity as nat
            } else {
                1
            },
            c.ttl() == ttl_ms,
    {
        let cap = if capacity >= 1 {
            capacity
        } else {
            1
        };
        let c = TtlLruCache { inner: lru_new(cap), ttl_ms };
        assert(c.entries() =~= Map::<Seq<char>, Entry>::empty());
        c
    }

    /// An empty cache of the default capacity (128).
    pub fn with_ttl(ttl_ms: u64) -> (c: Self)
        ensures
            c.entries() == Map::<Seq<char>, Entry>::empty(),
            c.recency() == Seq::<Seq<char>>::empty(),
            c.capacity() == DEFAULT_CAPACITY,
            c.ttl() == ttl_ms,
    {
        Self::new(DEFAULT_CAPACITY, ttl_ms)
    }
}

impl Cache for TtlLruCache {
    /// A fresh entry's response, the entry becoming the most recently
    /// used; a stale entry is evicted and missed.
    fn get(&mut self, key: &str, now_ms: u64) -> (r: Option<serde_json::Value>)
        ensures
            final(self).ttl() == old(self).ttl(),
            final(self).capacity() == old(self).capacity(),
            !old(self).entries().dom().contains(key@) ==> r is None && final(self).entries()
                == old(self).entries() && final(self).recency() == old(self).recency(),
            old(self).entries().dom().contains(key@) && fresh(
                old(self).entries()[key@].0,
                now_ms,
                old(self).ttl(),
            ) ==> r == Some(old(self).entries()[key@].1) && final(self).entries()
                == old(self).entries() && final(self).recency() == to_front(
                old(self).recency(),
                key@,
            ),
            old(self).entries().dom().contains(key@) && !fresh(
                old(self).entries()[key@].0,
                now_ms,
                old(self).ttl(),
            ) ==> r is None && final(self).entries() == old(self).entries().remove(key@)
                && final(self).recency() == without_key(old(self).recency(), key@),
    {
        proof {
            use_type_invariant(&*self);
        }
        match lru_get(&mut self.inner, key) {
            Some((stamp, value)) => {
                let elapsed = if now_ms >= stamp {
                    now_ms - stamp
                } else {
                    0
                };
                if elapsed < self.ttl_ms {
                    Some(value)
                } else {
                    let _ = lru_pop(&mut self.inner, key);
                    proof {
                        lemma_front_then_remove(lru_order(old(self).inner), key@);
                    }
                    None
                }
            },
            None => None,
        }
    }

    /// Store a response, stamped `now_ms`; the key becomes the most
    /// recently used. A new key in a full cache evicts the least
    /// recently used entry.
    fn put(&mut self, key: String, value: serde_json::Value, now_ms: u64)
        ensures
            final(self).ttl() == old(self).ttl(),
            final(self).capacity() == old(self).capacity(),
            final(self).entries().dom().len() <= final(self).capacity(),
            stored(
                old(self).entries(),
                old(self).recency(),
                old(self).capacity(),
                key@,
                (now_ms, value),
                final(self).entries(),
                final(self).recency(),
            ),
    {
        proof {
            use_type_invariant(&*self);
        }
        lru_put(&mut self.inner, key, (now_ms, value));
    }

    /// Drop every entry whose key starts with `prefix`.
    fn invalidate_prefix(&mut self, prefix: &str)
        ensures
            final(self).ttl() == old(self).ttl(),
            final(self).capacity() == old(self).capacity(),
            final(self).entries() == without_prefix(old(self).entries(), prefix@),
    {
        proof {
            use_type_invariant(&*self);
        }
        let ghost start = lru_contents(self.inner);
        let keys = lru_keys(&self.inner);
        let ghost kv = keys@.map_values(|k: String| k@);
        let mut i: usize = 0;
        while i < keys.len()
            invariant
                i <= keys@.len(),
                kv == keys@.map_values(|k: String| k@),
                kv.to_set() == start.dom(),
                lru_bounded(self.inner),
                lru_capacity(self.inner) == lru_capacity(old(self).inner),
                start == lru_contents(old(self).inner),
                self.ttl_ms == old(self).ttl_ms,
                lru_contents(self.inner) == start.restrict(
                    start.dom().filter(
                        |k: Seq<char>|
                            !(has_prefix(k, prefix@) && exists|j: int| 0 <= j < i && kv[j] == k),
                    ),
                ),
            decreases keys@.len() - i,
        {
            let ghost before = lru_contents(self.inner);
            if starts_with_str(keys[i].as_str(), prefix) {
                let _ = lru_pop(&mut self.inner, keys[i].as_str());
            }
            proof {
                let next = start.restrict(
                    start.dom().filter(
                        |k: Seq<char>|
                            !(has_prefix(k, prefix@) && exists|j: int| 0 <= j < i + 1 && kv[j] == k),
                    ),
                );
                assert(kv[i as int] == keys@[i as int]@);
                assert(lru_contents(self.inner) =~= next) by {
                    assert forall|k: Seq<char>| #[trigger] next.dom().contains(k) <==> lru_contents(
                        self.inner,
                    ).dom().contains(k) by {
                        if exists|j: int| 0 <= j < i + 1 && kv[j] == k {
                            let j = choose|j: int| 0 <= j < i + 1 && kv[j] == k;
                            if j < i {
                                assert(exists|j2: int| 0 <= j2 < i && kv[j2] == k);
                            }
                        }
                        if exists|j: int| 0 <= j < i && kv[j] == k {
                            let j = choose|j: int| 0 <= j < i && kv[j] == k;
                            assert(0 <= j < i + 1 && kv[j] == k);
                        }
                    }
                }
            }
            i = i + 1;
        }
        proof {
            let end = without_prefix(start, prefix@);
            assert(lru_contents(self.inner) =~= end) by {
                assert forall|k: Seq<char>| #[trigger] end.dom().contains(k) <==> lru_contents(
                    self.inner,
                ).dom().contains(k) by {
                    if start.dom().contains(k) {
                        assert(kv.to_set().contains(k));
                        let j = choose|j: int| 0 <= j < kv.len() && kv[j] == k;
                        assert(0 <= j < i && kv[j] == k);
                    }
                }
            }
        }
    }
}

} // verus!
