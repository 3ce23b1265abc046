//! Process-wide bookkeeping for coordinated shutdown.
//!
//! The orchestrator starts one account task per configured account, fires
//! the shutdown broadcast at most once when an operator interrupt
//! arrives, and lets the process exit only after every account task has
//! been joined. The runtime owns the task handles and the broadcast
//! channel; this machine owns the counts and the at-most-once decision.

use vstd::prelude::*;

verus! {

/// Counts the account tasks and records whether the shutdown broadcast
/// was already fired.
pub struct Orchestrator {
    /// How many account tasks were started.
    pub tasks: usize,
    /// Whether the shutdown broadcast has been fired.
    pub shutdown_fired: bool,
    /// How many account tasks have been joined.
    pub joined: usize,
}

impl Orchestrator {
    pub open spec fn wf(self) -> bool {
        self.joined <= self.tasks
    }

    /// No tasks yet, shutdown not fired.
    pub fn new() -> (r: Orchestrator)
        ensures
            r.wf(),
            r.tasks == 0,
            !r.shutdown_fired,
            r.joined == 0,
    {
        Orchestrator { tasks: 0, shutdown_fired: false, joined: 0 }
    }

    /// One more account task was spawned.
    pub fn task_started(&mut self)
        requires
            old(self).wf(),
            old(self).tasks < usize::MAX,
        ensures
            final(self).wf(),
            final(self).tasks == old(self).tasks + 1,
            final(self).shutdown_fired == old(self).shutdown_fired,
            final(self).joined == old(self).joined,
    {
        self.tasks = self.tasks + 1;
    }

    /// An operator interrupt arrived. The broadcast is to be fired only
    /// if this is the first interrupt: exactly once over the process
    /// lifetime.
    pub fn request_shutdown(&mut self) -> (fire: bool)
        ensures
            *final(self) == (Orchestrator { shutdown_fired: true, ..*old(self) }),
            fire == !old(self).shutdown_fired,
    {
        let fire = !self.shutdown_fired;
        self.shutdown_fired = true;
        fire
    }

    /// One account task reached its terminal state and was joined.
    pub fn task_joined(&mut self)
        requires
            old(self).wf(),
            old(self).joined < old(self).tasks,
        ensures
            final(self).wf(),
            final(self).joined == old(self).joined + 1,
            final(self).tasks == old(self).tasks,
            final(self).shutdown_fired == old(self).shutdown_fired,
    {
        self.joined = self.joined + 1;
    }

    /// Whether every started task has been joined: only then may the
    /// process exit.
    pub fn all_joined(&self) -> (r: bool)
        ensures
            r == (self.joined == self.tasks),
    {
        self.joined == self.tasks
    }
}

} // verus!
