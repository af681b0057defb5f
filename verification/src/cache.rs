//! The cache: a mapping from keys to timestamped entries, with an optional
//! time-to-live applied uniformly to the whole cache instance.

use crate::clock;
use std::collections::HashMap;
use std::time::Instant;
use vstd::prelude::*;
use vstd::std_specs::iter::IteratorSpec;

verus! {

broadcast use vstd::std_specs::hash::group_hash_axioms;

/// A stored value together with the clock reading at which it was inserted,
/// in nanoseconds since the owning cache was created.
pub struct Entry {
    pub value: String,
    pub insert_time: u64,
}

/// Whether an entry inserted at `insert_time` is expired at `now` under the
/// cache-wide policy `ttl`: with no TTL an entry never expires, with a TTL it
/// expires once its age reaches the TTL.
pub open spec fn is_expired(ttl: Option<u64>, insert_time: u64, now: u64) -> bool {
    match ttl {
        Some(d) => now >= insert_time + d,
        None => false,
    }
}

/// The result and the mapping after a read of `key` at time `now`: a miss
/// leaves the mapping alone, an expired entry is purged and reported as a
/// miss, and a live entry is returned with the mapping unchanged.
pub open spec fn spec_get(
    m: Map<i64, Entry>,
    ttl: Option<u64>,
    key: i64,
    now: u64,
) -> (Option<String>, Map<i64, Entry>) {
    if !m.contains_key(key) {
        (None, m)
    } else if is_expired(ttl, m[key].insert_time, now) {
        (None, m.remove(key))
    } else {
        (Some(m[key].value), m)
    }
}

/// The mapping after storing `value` under `key` at time `now`.
pub open spec fn spec_insert(
    m: Map<i64, Entry>,
    key: i64,
    value: String,
    now: u64,
) -> Map<i64, Entry> {
    m.insert(key, Entry { value: value, insert_time: now })
}

/// The mapping after a batch of writes applied in sequence order, all stamped
/// with the one timestamp `now`; a key that occurs twice keeps its later
/// value.
pub open spec fn spec_insert_batch(
    m: Map<i64, Entry>,
    items: Seq<(i64, String)>,
    now: u64,
) -> Map<i64, Entry>
    decreases items.len(),
{
    if items.len() == 0 {
        m
    } else {
        spec_insert_batch(m, items.drop_last(), now).insert(
            items.last().0,
            Entry { value: items.last().1, insert_time: now },
        )
    }
}

/// The value held under `key`, if any: what an overwrite or a delete reports.
pub open spec fn spec_prior(m: Map<i64, Entry>, key: i64) -> Option<String> {
    if m.contains_key(key) {
        Some(m[key].value)
    } else {
        None
    }
}

/// An in-process key-value cache. Keys map to timestamped entries; an optional
/// time-to-live in nanoseconds, fixed at construction, applies to every entry.
/// Expiration is lazy: only `get` consults the TTL, and it purges an expired
/// entry as a side effect of the read that discovered it.
pub struct SimpleCache {
    entries: HashMap<i64, Entry>,
    timeout: Option<u64>,
    origin: Instant,
}

impl View for SimpleCache {
    type V = Map<i64, Entry>;

    closed spec fn view(&self) -> Map<i64, Entry> {
        self.entries@
    }
}

impl SimpleCache {
    /// The cache-wide time-to-live in nanoseconds; `None` means entries never
    /// expire on their own.
    pub closed spec fn ttl(self) -> Option<u64> {
        self.timeout
    }

    /// Creates an empty cache. With `timeout` of `None` entries never expire;
    /// with `Some(d)` every entry expires `d` nanoseconds after its insertion.
    pub fn new(timeout: Option<u64>) -> (cache: SimpleCache)
        ensures
            cache@ == Map::<i64, Entry>::empty(),
            cache.ttl() == timeout,
    {
        SimpleCache { entries: HashMap::new(), timeout: timeout, origin: clock::monotonic_now() }
    }

    /// Looks up `key` as of the clock reading `now`. A miss returns `None`
    /// with no side effect; an entry whose age has reached the TTL is removed
    /// from the mapping and reported as a miss; a live entry is returned as a
    /// copy, with the mapping unchanged.
    pub fn get_at(&mut self, key: &i64, now: u64) -> (r: Option<String>)
        ensures
            final(self).ttl() == old(self).ttl(),
            (r, final(self)@) == spec_get(old(self)@, old(self).ttl(), *key, now),
    {
        match self.entries.get(key) {
            None => {
                return None;
            },
            Some(entry) => {
                let expired: bool = match self.timeout {
                    Some(d) => now >= entry.insert_time && now - entry.insert_time >= d,
                    None => false,
                };
                if !expired {
                    return Some(entry.value.clone());
                }
            },
        }
        self.entries.remove(key);
        None
    }

    /// Stores `value` under `key` as of the clock reading `now`,
    /// unconditionally overwriting any prior entry, and returns the value that
    /// was overwritten, if there was one.
    pub fn insert_at(&mut self, key: i64, value: String, now: u64) -> (r: Option<String>)
        ensures
            final(self).ttl() == old(self).ttl(),
            final(self)@ == spec_insert(old(self)@, key, value, now),
            r == spec_prior(old(self)@, key),
    {
        match self.entries.insert(key, Entry { value: value, insert_time: now }) {
            Some(prev) => Some(prev.value),
            None => None,
        }
    }

    /// Applies `insert` semantics to every pair of `items` in order, all
    /// stamped with the one clock reading `now`, so that the whole batch
    /// shares a single expiration horizon.
    pub fn insert_batch_at(&mut self, items: Vec<(i64, String)>, now: u64)
        ensures
            final(self).ttl() == old(self).ttl(),
            final(self)@ == spec_insert_batch(old(self)@, items@, now),
    {
        let ghost m0 = self.entries@;
        let mut i: usize = 0;
        while i < items.len()
            invariant
                i <= items.len(),
                self.timeout == old(self).timeout,
                self.entries@ == spec_insert_batch(m0, items@.take(i as int), now),
            decreases items.len() - i,
        {
            let pair = &items[i];
            self.entries.insert(pair.0, Entry { value: pair.1.clone(), insert_time: now });
            proof {
                let taken = items@.take(i + 1);
                assert(taken.drop_last() =~= items@.take(i as int));
                assert(taken.last() == items@[i as int]);
            }
            i = i + 1;
        }
        proof {
            assert(items@.take(items@.len() as int) =~= items@);
        }
    }

    /// Looks up `key` at the current reading of the monotonic clock and
    /// behaves as `get_at` does for that reading: a miss or an expired entry
    /// yields `None`, and discovering the expiration purges the entry; a live
    /// entry is returned with the mapping unchanged. Without a TTL a stored
    /// entry is returned whenever the clock is read.
    pub fn get(&mut self, key: &i64) -> (r: Option<String>)
        ensures
            final(self).ttl() == old(self).ttl(),
            exists|now: u64| (r, final(self)@) == spec_get(old(self)@, old(self).ttl(), *key, now),
            !old(self)@.contains_key(*key) ==> r is None && final(self)@ == old(self)@,
            old(self).ttl() is None && old(self)@.contains_key(*key) ==> r == Some(
                old(self)@[*key].value,
            ) && final(self)@ == old(self)@,
            old(self).ttl() is Some && old(self)@.contains_key(*key) ==> (r == Some(
                old(self)@[*key].value,
            ) && final(self)@ == old(self)@) || (r is None && final(self)@ == old(self)@.remove(
                *key,
            )),
    {
        let now = clock::nanos_since(&self.origin);
        let r = self.get_at(key, now);
        proof {
            assert((r, self@) == spec_get(old(self)@, old(self).ttl(), *key, now));
        }
        r
    }

    /// Stores `value` under `key`, stamped with the current reading of the
    /// monotonic clock, unconditionally overwriting any prior entry, and
    /// returns the value that was overwritten, if there was one.
    pub fn insert(&mut self, key: i64, value: String) -> (r: Option<String>)
        ensures
            final(self).ttl() == old(self).ttl(),
            r == spec_prior(old(self)@, key),
            exists|now: u64| final(self)@ == spec_insert(old(self)@, key, value, now),
    {
        let now = clock::nanos_since(&self.origin);
        let r = self.insert_at(key, value, now);
        proof {
            assert(self@ == spec_insert(old(self)@, key, value, now));
        }
        r
    }

    /// Applies `insert` semantics to every pair of `items` in order, all
    /// stamped with one reading of the monotonic clock taken before the first
    /// pair, so that the whole batch shares a single expiration horizon.
    pub fn insert_batch(&mut self, items: Vec<(i64, String)>)
        ensures
            final(self).ttl() == old(self).ttl(),
            exists|now: u64| final(self)@ == spec_insert_batch(old(self)@, items@, now),
    {
        let now = clock::nanos_since(&self.origin);
        self.insert_batch_at(items, now);
        proof {
            assert(self@ == spec_insert_batch(old(self)@, items@, now));
        }
    }

    /// Returns a snapshot copy of all keys currently present in the mapping,
    /// in no guaranteed order, including keys whose entries are logically
    /// expired but not yet lazily purged. The mapping is not touched.
    pub fn keys(&self) -> (r: Vec<i64>)
        ensures
            r@.to_set() == self@.dom(),
            r@.no_duplicates(),
            r@.len() == self@.dom().len(),
    {
        let mut r: Vec<i64> = Vec::new();
        let ks = self.entries.keys();
        let ghost gkeys = ks.remaining();
        for k in it: ks
            invariant
                it.seq() == gkeys,
                r@.len() == it.index(),
                forall|i: int| 0 <= i < it.index() ==> r@[i] == *gkeys[i],
        {
            r.push(*k);
        }
        proof {
            assert(gkeys == self.entries.keys().remaining());
            assert(r@ =~= gkeys.unref());
        }
        r
    }

    /// Returns a snapshot copy of all stored values currently present in the
    /// mapping, in no guaranteed order, with no expiration filtering and no
    /// mutation: a value belongs to the result exactly when some key holds it.
    pub fn values(&self) -> (r: Vec<String>)
        ensures
            r@.len() == self@.dom().len(),
            forall|v: String|
                r@.contains(v) <==> (exists|k: i64|
                    #[trigger] self@.contains_key(k) && self@[k].value == v),
    {
        let mut r: Vec<String> = Vec::new();
        let vs = self.entries.values();
        let ghost gentries = vs.remaining();
        for e in it: vs
            invariant
                it.seq() == gentries,
                r@.len() == it.index(),
                forall|i: int| 0 <= i < it.index() ==> r@[i] == gentries[i].value,
        {
            r.push(e.value.clone());
        }
        proof {
            assert(gentries == self.entries.values().remaining());
            let ges = gentries.unref();
            assert(ges.to_set() == self.entries@.values());
            assert forall|v: String| r@.contains(v) implies (exists|k: i64|
                #[trigger] self.entries@.contains_key(k) && self.entries@[k].value == v) by {
                let i = choose|i: int| 0 <= i < r@.len() && r@[i] == v;
                assert(ges.contains(ges[i]));
                assert(self.entries@.values().contains(ges[i]));
            }
            assert forall|v: String|
                (exists|k: i64|
                    #[trigger] self.entries@.contains_key(k)
                        && self.entries@[k].value == v) implies r@.contains(v) by {
                let k = choose|k: i64|
                    self.entries@.contains_key(k) && self.entries@[k].value == v;
                assert(self.entries@.contains_value(self.entries@[k]));
                assert(ges.to_set().contains(self.entries@[k]));
                let i = choose|i: int| 0 <= i < ges.len() && ges[i] == self.entries@[k];
                assert(r@[i] == v);
            }
        }
        r
    }

    /// Removes the entry under `key`, whatever its expiration state, and
    /// returns its stored value; on an absent key it returns `None` and
    /// leaves the mapping as it was.
    pub fn delete(&mut self, key: &i64) -> (r: Option<String>)
        ensures
            final(self).ttl() == old(self).ttl(),
            final(self)@ == old(self)@.remove(*key),
            r == spec_prior(old(self)@, *key),
            !old(self)@.contains_key(*key) ==> r is None && final(self)@ == old(self)@,
    {
        proof {
            if !self.entries@.contains_key(*key) {
                assert(self.entries@.remove(*key) =~= self.entries@);
            }
        }
        match self.entries.remove(key) {
            Some(entry) => Some(entry.value),
            None => None,
        }
    }
}

} // verus!
