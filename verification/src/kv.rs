//! A small association list with unique keys, viewed as a mathematical map.
//!
//! Both auxiliary registries (the filter pool and the pending-transaction
//! cache) and the block-hash mapping index are maps from a 64-bit identifier
//! to a 64-bit value.  This module holds the shared representation: a vector
//! of entries whose keys are pairwise distinct, together with its `Map` view
//! and the lemmas connecting the two.

use vstd::prelude::*;

verus! {

/// One association: a 64-bit key bound to a 64-bit value.
#[derive(Clone, Copy, Debug, PartialEq, Eq, Structural)]
pub struct Entry {
    pub key: u64,
    pub value: u64,
}

/// The keys of `s` are pairwise distinct.
pub open spec fn keys_unique(s: Seq<Entry>) -> bool {
    forall|i: int, j: int|
        0 <= i < j < s.len() ==> #[trigger] s[i].key != #[trigger] s[j].key
}

/// The map described by an association list; later entries win.
pub open spec fn as_map(s: Seq<Entry>) -> Map<u64, u64>
    decreases s.len(),
{
    if s.len() == 0 {
        Map::empty()
    } else {
        as_map(s.drop_last()).insert(s.last().key, s.last().value)
    }
}

/// A key is in the map exactly when some entry carries it.
pub proof fn lemma_as_map_dom(s: Seq<Entry>, k: u64)
    ensures
        as_map(s).dom().contains(k) <==> exists|i: int| 0 <= i < s.len() && s[i].key == k,
    decreases s.len(),
{
    if s.len() > 0 {
        lemma_as_map_dom(s.drop_last(), k);
        if s.last().key == k {
            assert(s[s.len() - 1].key == k);
        } else if as_map(s.drop_last()).dom().contains(k) {
            let i = choose|i: int| 0 <= i < s.drop_last().len() && s.drop_last()[i].key == k;
            assert(s[i].key == k);
        } else if exists|i: int| 0 <= i < s.len() && s[i].key == k {
            let i = choose|i: int| 0 <= i < s.len() && s[i].key == k;
            assert(i < s.len() - 1);
            assert(s.drop_last()[i].key == k);
        }
    }
}

/// With unique keys, the map sends each entry's key to that entry's value.
pub proof fn lemma_as_map_index(s: Seq<Entry>, i: int)
    requires
        keys_unique(s),
        0 <= i < s.len(),
    ensures
        as_map(s).dom().contains(s[i].key),
        as_map(s)[s[i].key] == s[i].value,
    decreases s.len(),
{
    lemma_as_map_dom(s, s[i].key);
    if i < s.len() - 1 {
        assert(keys_unique(s.drop_last())) by {
            assert(forall|a: int, b: int|
                0 <= a < b < s.drop_last().len()
                    ==> #[trigger] s.drop_last()[a].key != #[trigger] s.drop_last()[b].key);
        }
        assert(s.drop_last()[i] == s[i]);
        lemma_as_map_index(s.drop_last(), i);
        assert(s[i].key != s.last().key);
    }
}

/// Looks a key up in an association list with unique keys.
pub fn lookup(entries: &Vec<Entry>, key: u64) -> (r: Option<u64>)
    requires
        keys_unique(entries@),
    ensures
        r is Some <==> as_map(entries@).dom().contains(key),
        r matches Some(v) ==> as_map(entries@)[key] == v,
{
    let n: usize = entries.len();
    let mut i: usize = 0;
    while i < n
        invariant
            n == entries@.len(),
            i <= n,
            keys_unique(entries@),
            forall|j: int| 0 <= j < i ==> entries@[j].key != key,
        decreases n - i,
    {
        if entries[i].key == key {
            proof {
                lemma_as_map_index(entries@, i as int);
            }
            return Some(entries[i].value);
        }
        i = i + 1;
    }
    proof {
        lemma_as_map_dom(entries@, key);
    }
    None
}

/// Binds `key` to `value`, replacing the binding if the key is present.
pub fn store(entries: &mut Vec<Entry>, key: u64, value: u64)
    requires
        keys_unique(old(entries)@),
    ensures
        keys_unique(final(entries)@),
        as_map(final(entries)@) == as_map(old(entries)@).insert(key, value),
{
    let n: usize = entries.len();
    let mut i: usize = 0;
    while i < n
        invariant
            n == entries@.len(),
            i <= n,
            keys_unique(entries@),
            entries@ == old(entries)@,
            forall|j: int| 0 <= j < i ==> entries@[j].key != key,
        decreases n - i,
    {
        if entries[i].key == key {
            entries[i] = Entry { key, value };
            proof {
                lemma_store_update(old(entries)@, i as int, value);
            }
            return;
        }
        i = i + 1;
    }
    entries.push(Entry { key, value });
    proof {
        assert(entries@.drop_last() =~= old(entries)@);
    }
}

/// Updating the entry at `i` in place updates the map at that entry's key.
proof fn lemma_store_update(s: Seq<Entry>, i: int, value: u64)
    requires
        keys_unique(s),
        0 <= i < s.len(),
    ensures
        keys_unique(s.update(i, Entry { key: s[i].key, value })),
        as_map(s.update(i, Entry { key: s[i].key, value })) == as_map(s).insert(s[i].key, value),
    decreases s.len(),
{
    let t = s.update(i, Entry { key: s[i].key, value });
    assert(keys_unique(t)) by {
        assert(forall|a: int| 0 <= a < t.len() ==> t[a].key == s[a].key);
    }
    if i == s.len() - 1 {
        assert(t.drop_last() =~= s.drop_last());
        assert(t.last() == (Entry { key: s[i].key, value }));
    } else {
        assert(keys_unique(s.drop_last())) by {
            assert(forall|a: int, b: int|
                0 <= a < b < s.drop_last().len()
                    ==> #[trigger] s.drop_last()[a].key != #[trigger] s.drop_last()[b].key);
        }
        assert(t.drop_last() =~= s.drop_last().update(i, Entry { key: s[i].key, value }));
        assert(s.drop_last()[i] == s[i]);
        lemma_store_update(s.drop_last(), i, value);
        assert(t.last() == s.last());
        assert(s[i].key != s.last().key);
        assert(as_map(t) == as_map(s.drop_last()).insert(s[i].key, value).insert(
            s.last().key,
            s.last().value,
        ));
        assert(as_map(s.drop_last()).insert(s[i].key, value).insert(s.last().key, s.last().value)
            =~= as_map(s.drop_last()).insert(s.last().key, s.last().value).insert(
            s[i].key,
            value,
        ));
    }
}

/// With unique keys, the map has exactly one binding per entry.
pub proof fn lemma_as_map_len(s: Seq<Entry>)
    requires
        keys_unique(s),
    ensures
        as_map(s).dom().finite(),
        as_map(s).dom().len() == s.len(),
    decreases s.len(),
{
    if s.len() > 0 {
        assert(keys_unique(s.drop_last())) by {
            assert(forall|a: int, b: int|
                0 <= a < b < s.drop_last().len()
                    ==> #[trigger] s.drop_last()[a].key != #[trigger] s.drop_last()[b].key);
        }
        lemma_as_map_len(s.drop_last());
        lemma_as_map_dom(s.drop_last(), s.last().key);
        assert(forall|l: int| 0 <= l < s.len() - 1 ==> #[trigger] s.drop_last()[l].key == s[l].key);
        assert(!as_map(s.drop_last()).dom().contains(s.last().key));
        vstd::set::axiom_set_insert_len(as_map(s.drop_last()).dom(), s.last().key);
        assert(as_map(s).dom() =~= as_map(s.drop_last()).dom().insert(s.last().key));
    }
}

} // verus!
