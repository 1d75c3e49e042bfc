//! The append-only block-hash mapping index.
//!
//! The mapping sync worker reacts to block-import notifications by extending
//! an auxiliary index from the EVM-visible block identifier to the canonical
//! chain block identifier.  Entries are never removed and never overwritten:
//! processing the same import notification twice leaves the index unchanged,
//! so delayed or coalesced notifications are harmless.

use vstd::prelude::*;
use crate::kv;
use crate::kv::Entry;

verus! {

/// The mapping sync worker's fallback polling period, in seconds: the index
/// is re-synchronised on this tick even if import notifications are delayed
/// or coalesced, so that it converges for every imported block.
pub const MAPPING_SYNC_POLL_SECONDS: u64 = 6;

/// The auxiliary index from EVM-visible block id to canonical block id.
pub struct BlockMapping {
    entries: Vec<Entry>,
}

impl View for BlockMapping {
    type V = Map<u64, u64>;

    /// The index as a map from EVM-visible id to canonical id.
    closed spec fn view(&self) -> Map<u64, u64> {
        kv::as_map(self.entries@)
    }
}

impl BlockMapping {
    /// The representation keeps one entry per block identifier.
    pub closed spec fn wf(&self) -> bool {
        kv::keys_unique(self.entries@)
    }

    /// An empty index.
    pub fn new() -> (r: BlockMapping)
        ensures
            r.wf(),
            r@ == Map::<u64, u64>::empty(),
    {
        BlockMapping { entries: Vec::new() }
    }

    /// Extends the index to cover a newly imported block.  The index is
    /// append-only: existing entries keep their values, and a block already
    /// covered is left as it is.
    pub fn on_block_imported(&mut self, block: u64, canonical: u64)
        requires
            old(self).wf(),
        ensures
            final(self).wf(),
            old(self)@.dom().contains(block) ==> final(self)@ == old(self)@,
            !old(self)@.dom().contains(block) ==> final(self)@ == old(self)@.insert(
                block,
                canonical,
            ),
            final(self)@.dom().contains(block),
            forall|b: u64| #[trigger]
                old(self)@.dom().contains(b) ==> final(self)@.dom().contains(b) && final(self)@[b]
                    == old(self)@[b],
    {
        let known = kv::lookup(&self.entries, block);
        if known.is_none() {
            kv::store(&mut self.entries, block, canonical);
        }
    }

    /// The canonical block id recorded for `block`, if it is covered.
    pub fn lookup(&self, block: u64) -> (r: Option<u64>)
        requires
            self.wf(),
        ensures
            r is Some <==> self@.dom().contains(block),
            r matches Some(c) ==> self@[block] == c,
    {
        kv::lookup(&self.entries, block)
    }

    /// The number of blocks covered by the index.
    pub fn len(&self) -> (n: usize)
        requires
            self.wf(),
        ensures
            n == self@.dom().len(),
    {
        proof {
            kv::lemma_as_map_len(self.entries@);
        }
        self.entries.len()
    }
}

} // verus!
