//! Properties of the cache's behaviour, proved over the specification
//! functions that the operations' contracts are stated with.

use crate::cache::Entry;
use crate::cache::is_expired;
use crate::cache::spec_get;
use crate::cache::spec_insert;
use crate::cache::spec_insert_batch;
use crate::cache::spec_prior;
use vstd::prelude::*;

verus! {

/// A cache without a TTL keeps a stored entry forever: a read of a present
/// key at any time whatsoever returns its value and leaves the mapping
/// unchanged, until a delete or an overwrite intervenes.
pub proof fn lemma_no_ttl_persistence(m: Map<i64, Entry>, key: i64, now: u64)
    requires
        m.contains_key(key),
    ensures
        spec_get(m, None, key, now) == (Some(m[key].value), m),
{
}

/// Overwriting a key reports the value it previously held, and a later read
/// at any time where the fresh entry is not yet expired returns the new
/// value.
pub proof fn lemma_overwrite_returns_prior(
    m: Map<i64, Entry>,
    key: i64,
    v1: String,
    v2: String,
    t1: u64,
    t2: u64,
    ttl: Option<u64>,
    now: u64,
)
    requires
        !is_expired(ttl, t2, now),
    ensures
        spec_prior(spec_insert(m, key, v1, t1), key) == Some(v1),
        spec_get(spec_insert(spec_insert(m, key, v1, t1), key, v2, t2), ttl, key, now).0 == Some(
            v2,
        ),
{
}

/// Lazy expiration: once an entry's age has reached the TTL, reading its key
/// reports a miss and purges the entry, so the mapping afterwards no longer
/// holds the key.
pub proof fn lemma_lazy_expiration(m: Map<i64, Entry>, key: i64, d: u64, now: u64)
    requires
        m.contains_key(key),
        now >= m[key].insert_time + d,
    ensures
        spec_get(m, Some(d), key, now) == (None::<String>, m.remove(key)),
        !spec_get(m, Some(d), key, now).1.contains_key(key),
{
}

/// The value that a batch writes under `key`: that of the last pair of
/// `items` whose key is `key`, or `None` where no pair has it.
pub open spec fn batch_lookup(items: Seq<(i64, String)>, key: i64) -> Option<String>
    decreases items.len(),
{
    if items.len() == 0 {
        None
    } else if items.last().0 == key {
        Some(items.last().1)
    } else {
        batch_lookup(items.drop_last(), key)
    }
}

/// A batch write, described key by key: every key the batch mentions ends up
/// holding the value of its last occurrence, stamped with the batch's one
/// timestamp, and every other key keeps exactly the entry it had.
pub proof fn lemma_batch_insert(m: Map<i64, Entry>, items: Seq<(i64, String)>, now: u64)
    ensures
        forall|key: i64|
            match #[trigger] batch_lookup(items, key) {
                Some(v) => spec_insert_batch(m, items, now).contains_key(key)
                    && spec_insert_batch(m, items, now)[key] == (Entry {
                    value: v,
                    insert_time: now,
                }),
                None => spec_insert_batch(m, items, now).contains_key(key) == m.contains_key(key)
                    && (m.contains_key(key) ==> spec_insert_batch(m, items, now)[key] == m[key]),
            },
    decreases items.len(),
{
    if items.len() > 0 {
        let rest = items.drop_last();
        let last = items.last();
        lemma_batch_insert(m, rest, now);
        assert forall|key: i64|
            match #[trigger] batch_lookup(items, key) {
                Some(v) => spec_insert_batch(m, items, now).contains_key(key)
                    && spec_insert_batch(m, items, now)[key] == (Entry {
                    value: v,
                    insert_time: now,
                }),
                None => spec_insert_batch(m, items, now).contains_key(key) == m.contains_key(key)
                    && (m.contains_key(key) ==> spec_insert_batch(m, items, now)[key] == m[key]),
            } by {
            if key == last.0 {
                assert(batch_lookup(items, key) == Some(last.1));
            } else {
                assert(batch_lookup(items, key) == batch_lookup(rest, key));
                assert(spec_insert_batch(m, items, now)[key] == spec_insert_batch(
                    m,
                    rest,
                    now,
                )[key]);
            }
        }
    }
}

/// All entries written by one batch share the batch's single timestamp, so
/// under any TTL they cross any expiration horizon together: at no time is
/// one of them expired while another is still live.
pub proof fn lemma_batch_shares_timestamp(
    m: Map<i64, Entry>,
    items: Seq<(i64, String)>,
    now: u64,
    k1: i64,
    k2: i64,
    d: u64,
    later: u64,
)
    requires
        batch_lookup(items, k1) is Some,
        batch_lookup(items, k2) is Some,
    ensures
        spec_insert_batch(m, items, now)[k1].insert_time == spec_insert_batch(
            m,
            items,
            now,
        )[k2].insert_time,
        is_expired(Some(d), spec_insert_batch(m, items, now)[k1].insert_time, later) == is_expired(
            Some(d),
            spec_insert_batch(m, items, now)[k2].insert_time,
            later,
        ),
{
    lemma_batch_insert(m, items, now);
}

} // verus!
