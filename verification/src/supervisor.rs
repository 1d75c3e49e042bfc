//! Supervision of long-running node tasks.
//!
//! The eviction loops and the mapping sync worker are *essential*: their
//! event streams must never end while the node runs, because silently losing
//! the bounded-growth guarantees is worse than a visible crash.  The
//! supervisor records, for each spawned task, whether it is essential, and
//! turns the end of an essential task's stream into a node-wide shutdown.

use vstd::prelude::*;

verus! {

/// What the node does about a task whose stream ended.
#[derive(Clone, Copy, Debug, PartialEq, Eq, Structural)]
pub enum TaskDirective {
    /// A non-essential task ended; the node keeps running.
    Continue,
    /// An essential task ended; the whole node shuts down.
    ShutdownAll,
}

/// The monitor over the node's finite set of long-running tasks.
pub struct TaskSupervisor {
    essential: Vec<bool>,
    shutdown: bool,
}

impl TaskSupervisor {
    /// Which registered tasks are essential, by task id.
    pub closed spec fn tasks(&self) -> Seq<bool> {
        self.essential@
    }

    /// Whether an essential task's end has brought the node down.
    pub closed spec fn is_shutdown(&self) -> bool {
        self.shutdown
    }

    /// A supervisor with no tasks registered.
    pub fn new() -> (r: TaskSupervisor)
        ensures
            r.tasks() == Seq::<bool>::empty(),
            !r.is_shutdown(),
    {
        TaskSupervisor { essential: Vec::new(), shutdown: false }
    }

    /// Registers a spawned task and returns its id.
    pub fn register_task(&mut self, essential: bool) -> (id: usize)
        ensures
            id == old(self).tasks().len(),
            final(self).tasks() == old(self).tasks().push(essential),
            final(self).is_shutdown() == old(self).is_shutdown(),
    {
        let id = self.essential.len();
        self.essential.push(essential);
        id
    }

    /// Reacts to the end of a task's underlying stream: fatal exactly for an
    /// essential task.
    pub fn on_task_ended(&mut self, id: usize) -> (r: TaskDirective)
        requires
            id < old(self).tasks().len(),
        ensures
            final(self).tasks() == old(self).tasks(),
            old(self).tasks()[id as int] ==> r == TaskDirective::ShutdownAll
                && final(self).is_shutdown(),
            !old(self).tasks()[id as int] ==> r == TaskDirective::Continue
                && final(self).is_shutdown() == old(self).is_shutdown(),
    {
        if self.essential[id] {
            self.shutdown = true;
            TaskDirective::ShutdownAll
        } else {
            TaskDirective::Continue
        }
    }
}

} // verus!
