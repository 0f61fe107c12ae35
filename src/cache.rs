//! A single-slot snapshot cache with a fixed time to live.
use vstd::prelude::*;
use crate::snapshot::Snapshot;

verus! {

/// How long a cached snapshot is served, in nanoseconds.
pub const CACHE_TTL_NS: u64 = 500_000_000;

/// A snapshot and the monotonic time (in nanoseconds) it was taken at.
#[derive(Debug)]
pub struct CacheEntry {
    pub snapshot: Snapshot,
    pub captured_at_ns: u64,
}

/// Time from `then` to `now`, zero where `now` is earlier.
pub open spec fn age(then: u64, now: u64) -> nat {
    if now >= then {
        (now - then) as nat
    } else {
        0
    }
}

/// Whether something taken at `captured_at_ns` is still younger than
/// `ttl_ns` at `now_ns`.
pub fn within_ttl(captured_at_ns: u64, now_ns: u64, ttl_ns: u64) -> (r: bool)
    ensures
        r == (age(captured_at_ns, now_ns) < ttl_ns),
{
    now_ns.saturating_sub(captured_at_ns) < ttl_ns
}

/// The cache. It holds at most one entry, which a store replaces whole.
#[derive(Debug)]
pub struct SnapshotCache {
    pub entry: Option<CacheEntry>,
}

impl SnapshotCache {
    /// Whether a query at `now` is answered from the cache.
    pub open spec fn is_fresh_at(&self, now: u64) -> bool {
        match self.entry {
            Some(e) => age(e.captured_at_ns, now) < CACHE_TTL_NS,
            None => false,
        }
    }

    /// What a query at `now` gets from the cache.
    pub open spec fn answer_at(&self, now: u64) -> Option<Snapshot> {
        if self.is_fresh_at(now) {
            Some(self.entry->Some_0.snapshot)
        } else {
            None
        }
    }

    /// Every snapshot in the cache has its usage figures in range.
    pub open spec fn wf(&self) -> bool {
        match self.entry {
            Some(e) => e.snapshot.usage_in_range(),
            None => true,
        }
    }

    /// The cache after `snapshot`, taken at `at_ns`, is stored.
    pub open spec fn stored(self, snapshot: Snapshot, at_ns: u64) -> SnapshotCache {
        SnapshotCache { entry: Some(CacheEntry { snapshot, captured_at_ns: at_ns }) }
    }

    /// An empty cache.
    pub fn new() -> (c: SnapshotCache)
        ensures
            c.entry is None,
            c.wf(),
    {
        SnapshotCache { entry: None }
    }

    /// A copy of the cached snapshot if it is younger than the time to live.
    pub fn lookup(&self, now_ns: u64) -> (r: Option<Snapshot>)
        ensures
            r == self.answer_at(now_ns),
    {
        match &self.entry {
            Some(e) => {
                if within_ttl(e.captured_at_ns, now_ns, CACHE_TTL_NS) {
                    Some(e.snapshot.clone())
                } else {
                    None
                }
            },
            None => None,
        }
    }

    /// Makes `snapshot`, taken at `at_ns`, the one entry.
    pub fn store(&mut self, snapshot: Snapshot, at_ns: u64)
        ensures
            *final(self) == old(self).stored(snapshot, at_ns),
    {
        self.entry = Some(CacheEntry { snapshot, captured_at_ns: at_ns });
    }
}

/// The cache after each of `stores`, in order, is stored.
pub open spec fn after_stores(c: SnapshotCache, stores: Seq<(Snapshot, u64)>) -> SnapshotCache
    decreases stores.len(),
{
    if stores.len() == 0 {
        c
    } else {
        after_stores(c, stores.drop_last()).stored(stores.last().0, stores.last().1)
    }
}

/// Once a snapshot is stored at `t1`, a query at any `t2` less than the time
/// to live later is answered with that same snapshot.
pub proof fn lemma_repeat_within_ttl(c: SnapshotCache, s: Snapshot, t1: u64, t2: u64)
    requires
        t1 <= t2,
        t2 - t1 < CACHE_TTL_NS,
    ensures
        c.stored(s, t1).is_fresh_at(t2),
        c.stored(s, t1).answer_at(t2) == Some(s),
{
}

/// A query at least the time to live after the entry was taken is not
/// answered from the cache.
pub proof fn lemma_expired_entry_is_not_served(c: SnapshotCache, now: u64)
    requires
        c.entry is Some,
        now >= c.entry->Some_0.captured_at_ns + CACHE_TTL_NS,
    ensures
        !c.is_fresh_at(now),
        c.answer_at(now) is None,
{
}

/// However many stores land, in whatever order, the cache then holds exactly
/// one entry, the last one stored; if every stored snapshot had its usage
/// figures in range, so does the cache.
pub proof fn lemma_last_store_wins(c: SnapshotCache, stores: Seq<(Snapshot, u64)>)
    requires
        stores.len() > 0,
        c.wf(),
        forall|i: int| 0 <= i < stores.len() ==> (#[trigger] stores[i]).0.usage_in_range(),
    ensures
        after_stores(c, stores).entry == Some(
            CacheEntry { snapshot: stores.last().0, captured_at_ns: stores.last().1 },
        ),
        after_stores(c, stores).wf(),
{
    assert(stores[stores.len() - 1].0.usage_in_range());
}

} // verus!
