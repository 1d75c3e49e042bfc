//! Sealing triggers for the development node.
//!
//! In development mode the node decides locally when to attempt a new block.
//! One of three mutually exclusive policies is chosen at startup:
//!
//! - **Instant**: attempt a block whenever the transaction pool reports a
//!   newly validated transaction.  Signals are not counted: while authorship
//!   is busy, only the existence of a pending signal matters, so a burst of
//!   signals triggers at most one additional attempt.
//! - **Manual**: commands arrive from an operator-facing control surface
//!   through a bounded queue; submission to a full queue fails rather than
//!   blocking.
//! - **Interval**: attempt an (empty-permitted) block on a fixed wall-clock
//!   period, driven by an external timer.

use vstd::prelude::*;

verus! {

/// Capacity of the manual sealing command queue.
pub const MANUAL_QUEUE_CAPACITY: usize = 1000;

/// The sealing policy configured at startup.
#[derive(Clone, Copy, Debug, PartialEq, Eq, Structural)]
pub enum Sealing {
    /// Seal on every newly validated transaction.
    Instant,
    /// Seal only on externally submitted commands.
    Manual,
    /// Seal on a fixed period, given in milliseconds.
    Interval(u64),
}

/// A request that exactly one new block be attempted.
#[derive(Clone, Copy, Debug, PartialEq, Eq, Structural)]
pub struct SealCommand {
    /// Build the block with no transactions.
    pub create_empty: bool,
    /// Finalize the block after a successful import.
    pub finalize: bool,
    /// Build on this parent instead of the current best block.
    pub parent_hash: Option<u64>,
    /// Whether a completion notifier awaits the attempt's outcome.
    pub has_notifier: bool,
}

/// The command emitted for a newly validated transaction in instant mode.
pub open spec fn instant_seal_command() -> SealCommand {
    SealCommand { create_empty: false, finalize: false, parent_hash: None, has_notifier: false }
}

/// The command emitted on every tick in interval mode; the block may be empty.
pub open spec fn interval_seal_command() -> SealCommand {
    SealCommand { create_empty: true, finalize: false, parent_hash: None, has_notifier: false }
}

/// Builds the command for one interval-mode timer tick.
pub fn interval_tick() -> (c: SealCommand)
    ensures
        c == interval_seal_command(),
{
    SealCommand { create_empty: true, finalize: false, parent_hash: None, has_notifier: false }
}

/// Submitting to a full manual queue fails; the command is returned unqueued.
#[derive(Clone, Copy, Debug, PartialEq, Eq, Structural)]
pub struct QueueFull;

/// The bounded queue through which manual sealing commands arrive.
///
/// Commands are served in first-in, first-out order.  Submission never
/// blocks: a command offered to a full queue is rejected.
pub struct ManualCommandQueue {
    commands: Vec<SealCommand>,
    capacity: usize,
}

impl View for ManualCommandQueue {
    type V = Seq<SealCommand>;

    /// The queued commands, oldest first.
    closed spec fn view(&self) -> Seq<SealCommand> {
        self.commands@
    }
}

impl ManualCommandQueue {
    /// The queue's fixed capacity.
    pub closed spec fn capacity(&self) -> usize {
        self.capacity
    }

    /// An empty queue with the node's manual-seal capacity.
    pub fn new() -> (r: ManualCommandQueue)
        ensures
            r@ == Seq::<SealCommand>::empty(),
            r.capacity() == MANUAL_QUEUE_CAPACITY,
    {
        ManualCommandQueue { commands: Vec::new(), capacity: MANUAL_QUEUE_CAPACITY }
    }

    /// Offers a command; it is queued exactly when the queue is not full.
    pub fn submit(&mut self, command: SealCommand) -> (r: Result<(), QueueFull>)
        ensures
            final(self).capacity() == old(self).capacity(),
            old(self)@.len() < old(self).capacity() ==> r is Ok && final(self)@ == old(self)@.push(
                command,
            ),
            old(self)@.len() >= old(self).capacity() ==> r == Err::<(), QueueFull>(QueueFull)
                && final(self)@ == old(self)@,
    {
        if self.commands.len() < self.capacity {
            self.commands.push(command);
            Ok(())
        } else {
            Err(QueueFull)
        }
    }

    /// Takes the oldest queued command, if any.
    pub fn next_command(&mut self) -> (r: Option<SealCommand>)
        ensures
            final(self).capacity() == old(self).capacity(),
            old(self)@.len() == 0 ==> r is None && final(self)@ == old(self)@,
            old(self)@.len() > 0 ==> r == Some(old(self)@[0]) && final(self)@ == old(
                self,
            )@.drop_first(),
    {
        if self.commands.len() == 0 {
            None
        } else {
            let c = self.commands.remove(0);
            proof {
                assert(old(self)@.drop_first() =~= old(self)@.subrange(1, old(self)@.len() as int));
            }
            Some(c)
        }
    }

    /// The number of queued commands.
    pub fn len(&self) -> (n: usize)
        ensures
            n == self@.len(),
    {
        self.commands.len()
    }
}

/// The instant-mode trigger state.
///
/// The transaction pool's import notifications are coalesced: the trigger
/// records only that at least one signal arrived since the last command was
/// taken, never how many.
pub struct InstantTrigger {
    pending: bool,
}

/// The trigger state after one pool signal, whatever the state before.
pub open spec fn signalled(pending: bool) -> bool {
    true
}

/// The trigger state after `n` consecutive pool signals.
pub open spec fn signalled_n(pending: bool, n: nat) -> bool
    decreases n,
{
    if n == 0 {
        pending
    } else {
        signalled(signalled_n(pending, (n - 1) as nat))
    }
}

impl InstantTrigger {
    /// Whether a signal is pending.
    pub closed spec fn has_pending(&self) -> bool {
        self.pending
    }

    /// A trigger with no pending signal.
    pub fn new() -> (r: InstantTrigger)
        ensures
            !r.has_pending(),
    {
        InstantTrigger { pending: false }
    }

    /// Records that the pool validated a new transaction.
    pub fn on_transaction_validated(&mut self)
        ensures
            final(self).has_pending() == signalled(old(self).has_pending()),
            final(self).has_pending(),
    {
        self.pending = true;
    }

    /// Takes the pending seal command, if a signal arrived since the last
    /// take; at most one command comes out of any burst of signals.
    pub fn next_command(&mut self) -> (r: Option<SealCommand>)
        ensures
            !final(self).has_pending(),
            old(self).has_pending() ==> r == Some(instant_seal_command()),
            !old(self).has_pending() ==> r is None,
    {
        if self.pending {
            self.pending = false;
            Some(
                SealCommand {
                    create_empty: false,
                    finalize: false,
                    parent_hash: None,
                    has_notifier: false,
                },
            )
        } else {
            None
        }
    }
}

/// Coalescing law: a burst of `n >= 1` pool-validation signals leaves the
/// instant trigger in the same state as a single signal, so at most one
/// additional authorship attempt is triggered, not `n`.
pub proof fn lemma_signal_burst_coalesces(pending: bool, n: nat)
    requires
        n >= 1,
    ensures
        signalled_n(pending, n) == signalled_n(pending, 1),
    decreases n,
{
    if n > 1 {
        lemma_signal_burst_coalesces(pending, (n - 1) as nat);
    }
}

} // verus!
