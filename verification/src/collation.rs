//! The collation path.
//!
//! When the node runs as a collator, block production has no local trigger:
//! cadence is dictated by the relay chain.  Each authoring attempt is gated on
//! a relay-chain-supplied validation data snapshot for the target slot; when
//! none is available the attempt is skipped, which is expected and not an
//! error.  After a successful import the block is announced to the network;
//! a failed import is a per-slot miss, logged and never retried within the
//! same slot.

use vstd::prelude::*;

verus! {

/// The relay-chain-supplied snapshot that gates one authoring attempt.  It is
/// owned by the collation path for the duration of the attempt and discarded
/// after import.
#[derive(Debug)]
pub struct ValidationData {
    /// The relay-chain block the snapshot was taken at; one attempt is made
    /// per such slot.
    pub relay_parent_number: u64,
    /// The relay-chain storage root the candidate must be validated against.
    pub relay_parent_storage_root: u64,
    /// Downward messages to process in the candidate block.
    pub downward_messages: Vec<u64>,
    /// Horizontal messages to process in the candidate block.
    pub horizontal_messages: Vec<u64>,
}

/// What one slot's worth of collation work amounts to.
#[derive(Clone, Copy, Debug, PartialEq, Eq, Structural)]
pub enum CollationStep {
    /// No valid snapshot for a new slot: no block is authored, no error.
    Skipped,
    /// A candidate block is to be built against this relay-chain slot.
    Authoring { relay_parent_number: u64 },
}

/// How one authoring attempt ended.
#[derive(Clone, Copy, Debug, PartialEq, Eq, Structural)]
pub enum CollationOutcome {
    /// The block was imported and must be announced to the network.
    Announced,
    /// The import failed: the slot is missed, logged, and not retried.
    SlotMissed,
}

/// The collator-side authoring state.
pub struct CollationPath {
    authoring: bool,
    last_slot: Option<u64>,
}

impl CollationPath {
    /// Whether an authoring attempt is in flight.
    pub closed spec fn is_authoring(&self) -> bool {
        self.authoring
    }

    /// The relay-chain slot of the most recent attempt, if any.
    pub closed spec fn last_slot(&self) -> Option<u64> {
        self.last_slot
    }

    /// A collation path that has not yet authored.
    pub fn new() -> (r: CollationPath)
        ensures
            !r.is_authoring(),
            r.last_slot() is None,
    {
        CollationPath { authoring: false, last_slot: None }
    }

    /// Decides whether to author for the given snapshot.  The attempt is
    /// skipped when no snapshot is available, and when the snapshot's slot
    /// was already attempted — a miss is never retried within its slot.
    pub fn begin_attempt(&mut self, validation: Option<&ValidationData>) -> (r: CollationStep)
        requires
            !old(self).is_authoring(),
        ensures
            validation is None ==> r == CollationStep::Skipped && *final(self) == *old(self),
            validation matches Some(vd) ==> {
                &&& old(self).last_slot() == Some(vd.relay_parent_number) ==> r
                    == CollationStep::Skipped && *final(self) == *old(self)
                &&& old(self).last_slot() != Some(vd.relay_parent_number) ==> r
                    == (CollationStep::Authoring { relay_parent_number: vd.relay_parent_number })
                    && final(self).is_authoring() && final(self).last_slot() == Some(
                    vd.relay_parent_number,
                )
            },
    {
        match validation {
            None => CollationStep::Skipped,
            Some(vd) => {
                let already_attempted = match self.last_slot {
                    Some(s) => s == vd.relay_parent_number,
                    None => false,
                };
                if already_attempted {
                    CollationStep::Skipped
                } else {
                    self.authoring = true;
                    self.last_slot = Some(vd.relay_parent_number);
                    CollationStep::Authoring { relay_parent_number: vd.relay_parent_number }
                }
            },
        }
    }

    /// Consumes the import outcome of the attempt in flight: an imported
    /// block is announced, a rejected one is a slot miss.
    pub fn complete_attempt(&mut self, imported: bool) -> (r: CollationOutcome)
        requires
            old(self).is_authoring(),
        ensures
            !final(self).is_authoring(),
            final(self).last_slot() == old(self).last_slot(),
            imported ==> r == CollationOutcome::Announced,
            !imported ==> r == CollationOutcome::SlotMissed,
    {
        self.authoring = false;
        if imported {
            CollationOutcome::Announced
        } else {
            CollationOutcome::SlotMissed
        }
    }
}

} // verus!
