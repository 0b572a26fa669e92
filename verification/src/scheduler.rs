//! The shared run queue: a FIFO of runnable process references.

use vstd::prelude::*;

verus! {

/// The run queue. Entries are indices into the kernel's process table,
/// standing for the process references the queue holds; insertion order is
/// significant (FIFO). Created once at boot and never destroyed.
pub struct Scheduler {
    pub run_queue: Vec<usize>,
}

impl Scheduler {
    /// An empty run queue, as built at boot.
    pub fn new() -> (s: Scheduler)
        ensures
            s.run_queue@ == Seq::<usize>::empty(),
    {
        Scheduler { run_queue: Vec::new() }
    }

    /// Appends `process` at the tail of the run queue.
    ///
    /// Callers only ever pass a runnable process that is not already present;
    /// a violation is a programming error, not a recoverable condition.
    pub fn enqueue(&mut self, process: usize)
        requires
            !old(self).run_queue@.contains(process),
        ensures
            final(self).run_queue@ == old(self).run_queue@.push(process),
    {
        self.run_queue.push(process);
    }

    /// Removes and returns the process at the head of the queue, or nothing
    /// if the queue is empty. No side effect beyond the removal.
    pub fn pick_next(&mut self) -> (r: Option<usize>)
        ensures
            old(self).run_queue@.len() == 0 ==> r is None && *final(self) == *old(self),
            old(self).run_queue@.len() > 0 ==> r == Some(old(self).run_queue@[0])
                && final(self).run_queue@ == old(self).run_queue@.drop_first(),
    {
        if self.run_queue.len() == 0 {
            None
        } else {
            let head = self.run_queue.remove(0);
            proof {
                assert(self.run_queue@ =~= old(self).run_queue@.drop_first());
            }
            Some(head)
        }
    }
}

} // verus!
