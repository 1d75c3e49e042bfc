//! Bounded auxiliary registries pruned by block-height age.
//!
//! The node keeps two such registries: the log-filter pool, whose entries may
//! stay for 100 blocks, and the pending-transaction cache, whose entries may
//! stay for 5.  Both map an identifier to the block height at which the entry
//! was created; on every new canonical block at height `H`, every entry whose
//! age `H - creation_height` exceeds the registry's retention threshold is
//! removed.

use vstd::prelude::*;
use crate::kv;
use crate::kv::Entry;

verus! {

/// Retention threshold of the log-filter pool, in blocks.
pub const FILTER_RETAIN_THRESHOLD: u64 = 100;

/// Retention threshold of the pending-transaction cache, in blocks.
pub const TRANSACTION_RETAIN_THRESHOLD: u64 = 5;

/// An entry created at height `created` survives a pass at height `height`
/// under threshold `threshold` exactly when its age is within the threshold.
pub open spec fn survives(height: int, created: int, threshold: int) -> bool {
    height - created <= threshold
}

/// The registry contents after an eviction pass at `height`: the restriction
/// of `m` to the entries whose age is within `threshold`.
pub open spec fn evicted(m: Map<u64, u64>, height: int, threshold: int) -> Map<u64, u64> {
    Map::new(
        |k: u64| m.dom().contains(k) && survives(height, m[k] as int, threshold),
        |k: u64| m[k],
    )
}

/// A registry of identifiers tagged with their creation block height,
/// evicted on a rolling block-height schedule.
pub struct Registry {
    threshold: u64,
    entries: Vec<Entry>,
}

impl View for Registry {
    type V = Map<u64, u64>;

    /// The registry as a map from identifier to creation height.
    closed spec fn view(&self) -> Map<u64, u64> {
        kv::as_map(self.entries@)
    }
}

impl Registry {
    /// The representation keeps one entry per identifier.
    pub closed spec fn wf(&self) -> bool {
        kv::keys_unique(self.entries@)
    }

    /// The registry's retention threshold, in blocks.
    pub closed spec fn threshold(&self) -> u64 {
        self.threshold
    }

    /// An empty registry whose entries may stay for `threshold` blocks.
    pub fn new(threshold: u64) -> (r: Registry)
        ensures
            r.wf(),
            r.threshold() == threshold,
            r@ == Map::<u64, u64>::empty(),
    {
        Registry { threshold, entries: Vec::new() }
    }

    /// Records that `id` was created at block height `created_at`; an entry
    /// already carrying `id` is replaced.
    pub fn insert(&mut self, id: u64, created_at: u64)
        requires
            old(self).wf(),
        ensures
            final(self).wf(),
            final(self).threshold() == old(self).threshold(),
            final(self)@ == old(self)@.insert(id, created_at),
    {
        kv::store(&mut self.entries, id, created_at);
    }

    /// The creation height recorded for `id`, if the entry is present.
    pub fn get(&self, id: u64) -> (r: Option<u64>)
        requires
            self.wf(),
        ensures
            r is Some <==> self@.dom().contains(id),
            r matches Some(h) ==> self@[id] == h,
    {
        kv::lookup(&self.entries, id)
    }

    /// The number of entries currently held.
    pub fn len(&self) -> (n: usize)
        requires
            self.wf(),
        ensures
            n == self@.dom().len(),
    {
        proof {
            kv::lemma_as_map_len(self.entries@);
        }
        self.entries.len()
    }

    /// Removes every entry whose age at `height` exceeds the threshold.
    pub fn evict_pass(&mut self, height: u64)
        requires
            old(self).wf(),
        ensures
            final(self).wf(),
            final(self).threshold() == old(self).threshold(),
            final(self)@ == evicted(old(self)@, height as int, old(self).threshold() as int),
    {
        let ghost s = self.entries@;
        let ghost h = height as int;
        let ghost t = self.threshold as int;
        let n: usize = self.entries.len();
        let mut kept: Vec<Entry> = Vec::new();
        let mut i: usize = 0;
        while i < n
            invariant
                n == s.len(),
                i <= n,
                self.entries@ == s,
                self.threshold == t,
                height == h,
                kv::keys_unique(s),
                kv::keys_unique(kept@),
                kv::as_map(kept@) == evicted(kv::as_map(s.take(i as int)), h, t),
            decreases n - i,
        {
            let e = self.entries[i];
            proof {
                lemma_evicted_take_step(s, i as int, h, t);
                lemma_prefix_key_absent(s, i as int);
            }
            if height <= e.value || height - e.value <= self.threshold {
                proof {
                    lemma_push_fresh_key(kept@, kv::as_map(s.take(i as int)), e);
                    assert(kept@.push(e).drop_last() =~= kept@);
                }
                kept.push(e);
            } else {
                proof {
                    assert(!evicted(kv::as_map(s.take(i as int)), h, t).dom().contains(e.key));
                    assert(evicted(kv::as_map(s.take(i as int)), h, t).remove(e.key) =~= evicted(
                        kv::as_map(s.take(i as int)),
                        h,
                        t,
                    ));
                }
            }
            i = i + 1;
        }
        proof {
            assert(s.take(n as int) =~= s);
        }
        self.entries = kept;
    }
}

/// The entry at `i` carries a key that none of the first `i` entries carries.
proof fn lemma_prefix_key_absent(s: Seq<Entry>, i: int)
    requires
        kv::keys_unique(s),
        0 <= i < s.len(),
    ensures
        !kv::as_map(s.take(i)).dom().contains(s[i].key),
{
    kv::lemma_as_map_dom(s.take(i), s[i].key);
    if kv::as_map(s.take(i)).dom().contains(s[i].key) {
        let l = choose|l: int| 0 <= l < s.take(i).len() && s.take(i)[l].key == s[i].key;
        assert(s[l].key == s[i].key);
        assert(false);
    }
}

/// Pushing an entry whose key lies outside the map that `kept` describes
/// keeps the keys unique and inserts the binding into that map.
proof fn lemma_push_fresh_key(kept: Seq<Entry>, m: Map<u64, u64>, e: Entry)
    requires
        kv::keys_unique(kept),
        forall|k: u64| #[trigger] kv::as_map(kept).dom().contains(k) ==> m.dom().contains(k),
        !m.dom().contains(e.key),
    ensures
        kv::keys_unique(kept.push(e)),
{
    assert forall|j: int| 0 <= j < kept.len() implies #[trigger] kept[j].key != e.key by {
        kv::lemma_as_map_index(kept, j);
    }
    let p = kept.push(e);
    assert forall|a: int, b: int|
        0 <= a < b < p.len() implies #[trigger] p[a].key != #[trigger] p[b].key by {
        if b < kept.len() {
            assert(p[a] == kept[a] && p[b] == kept[b]);
        } else {
            assert(p[b] == e && p[a] == kept[a]);
        }
    }
}

/// Extending the processed prefix of `s` by one entry extends its map and,
/// pointwise, the evicted view of that map.
proof fn lemma_evicted_take_step(s: Seq<Entry>, i: int, h: int, t: int)
    requires
        kv::keys_unique(s),
        0 <= i < s.len(),
    ensures
        kv::as_map(s.take(i + 1)) == kv::as_map(s.take(i)).insert(s[i].key, s[i].value),
        survives(h, s[i].value as int, t) ==> evicted(kv::as_map(s.take(i + 1)), h, t) == evicted(
            kv::as_map(s.take(i)),
            h,
            t,
        ).insert(s[i].key, s[i].value),
        !survives(h, s[i].value as int, t) ==> evicted(kv::as_map(s.take(i + 1)), h, t) == evicted(
            kv::as_map(s.take(i)),
            h,
            t,
        ).remove(s[i].key),
{
    assert(s.take(i + 1).drop_last() =~= s.take(i));
    assert(s.take(i + 1).last() == s[i]);
    let before = kv::as_map(s.take(i));
    let after = before.insert(s[i].key, s[i].value);
    if survives(h, s[i].value as int, t) {
        assert(evicted(after, h, t) =~= evicted(before, h, t).insert(s[i].key, s[i].value));
    } else {
        assert(evicted(after, h, t) =~= evicted(before, h, t).remove(s[i].key));
    }
}

/// Retention law: after a pass at `height`, every surviving entry has age at
/// most `threshold`, and every entry with age at most `threshold` survives
/// with its creation height unchanged.
pub proof fn lemma_eviction_retention(m: Map<u64, u64>, height: int, threshold: int)
    ensures
        forall|k: u64| #[trigger]
            evicted(m, height, threshold).dom().contains(k) ==> height - evicted(
                m,
                height,
                threshold,
            )[k] <= threshold,
        forall|k: u64|
            m.dom().contains(k) && height - m[k] <= threshold ==> #[trigger] evicted(
                m,
                height,
                threshold,
            ).dom().contains(k) && evicted(m, height, threshold)[k] == m[k],
{
}

/// Idempotence law: an eviction pass at `height` leaves nothing more for a
/// second pass at the same height to remove.
pub proof fn lemma_eviction_idempotent(m: Map<u64, u64>, height: int, threshold: int)
    ensures
        evicted(evicted(m, height, threshold), height, threshold) == evicted(m, height, threshold),
{
    assert(evicted(evicted(m, height, threshold), height, threshold) =~= evicted(
        m,
        height,
        threshold,
    ));
}

} // verus!
