//! The context-switch engine and the post-switch trampoline.

use vstd::prelude::*;
use crate::process::{Process, ProcessState, unlocked};
use crate::scheduler::Scheduler;
use crate::cpu::Cpu;
use crate::pending::{pending_seq, pending_new, pending_push, pending_drain};

verus! {

/// The whole state the scheduling core works on: the process table, the shared
/// run queue, and this CPU's record.
pub struct Kernel {
    /// The process table; run queue, `current` and `idle` hold indices into it.
    pub procs: Vec<Process>,
    /// The shared run queue.
    pub scheduler: Scheduler,
    /// This CPU's record and machine state.
    pub cpu: Cpu,
}

impl Kernel {
    /// The run queue's contents.
    pub open spec fn queue(self) -> Seq<usize> {
        self.scheduler.run_queue@
    }

    /// This CPU's pending-unlock list's contents.
    pub open spec fn pending(self) -> Seq<usize> {
        pending_seq(self.cpu.pending_unlocks)
    }

    pub open spec fn valid_index(self, i: usize) -> bool {
        i < self.procs@.len()
    }

    /// Structural well-formedness: `current` and `idle` name real processes,
    /// pid 0 belongs to the idle process alone, pids are unique, and the run
    /// queue holds valid, runnable processes with no duplicate presence — no
    /// process twice, never the idle process, and never the one currently
    /// running.
    pub open spec fn wf(self) -> bool {
        &&& self.valid_index(self.cpu.current)
        &&& self.valid_index(self.cpu.idle)
        &&& self.procs@[self.cpu.idle as int].pid == 0
        &&& forall|i: usize, j: usize|
            i < self.procs@.len() && j < self.procs@.len() && i != j
                ==> self.procs@[i as int].pid != self.procs@[j as int].pid
        &&& forall|k: int| 0 <= k < self.queue().len()
                ==> self.valid_index(#[trigger] self.queue()[k])
        &&& forall|k: int| 0 <= k < self.queue().len()
                ==> #[trigger] self.queue()[k] != self.cpu.idle
        &&& forall|k: int| 0 <= k < self.queue().len()
                ==> #[trigger] self.queue()[k] != self.cpu.current
        &&& forall|k1: int, k2: int|
            0 <= k1 < self.queue().len() && 0 <= k2 < self.queue().len() && k1 != k2
                ==> self.queue()[k1] != self.queue()[k2]
        &&& forall|k: int| 0 <= k < self.queue().len()
                ==> self.procs@[#[trigger] self.queue()[k] as int].state is Runnable
    }

    /// The state between switches: the pending-unlock list is empty and no
    /// saved-context lock is held.
    pub open spec fn quiescent(self) -> bool {
        &&& self.pending().len() == 0
        &&& forall|i: usize| i < self.procs@.len()
                ==> !self.procs@[i as int].inner_locked
    }

    /// Boots a single-CPU kernel: one idle process (pid 0), which is current,
    /// an empty run queue, and an empty pending-unlock list.
    pub fn boot(interrupt_enabled: bool, idle_context: u64) -> (k: Kernel)
        ensures
            k.wf(),
            k.quiescent(),
            k.procs@.len() == 1,
            k.procs@[0] == (Process {
                pid: 0,
                state: ProcessState::Runnable,
                address_space: None,
                opened_files: 0,
                inner_locked: false,
                context: idle_context,
            }),
            k.cpu.current == 0usize && k.cpu.idle == 0usize,
            k.queue().len() == 0,
            k.cpu.interrupt_enabled == interrupt_enabled,
            k.cpu.active_space is None,
            k.cpu.live_context == idle_context,
    {
        let idle = Process {
            pid: 0,
            state: ProcessState::Runnable,
            address_space: None,
            opened_files: 0,
            inner_locked: false,
            context: idle_context,
        };
        let mut procs: Vec<Process> = Vec::new();
        procs.push(idle);
        Kernel {
            procs,
            scheduler: Scheduler::new(),
            cpu: Cpu {
                current: 0,
                idle: 0,
                pending_unlocks: pending_new(),
                interrupt_enabled,
                active_space: None,
                live_context: idle_context,
            },
        }
    }

    /// Adds a process to the table, outside the run queue; its index is
    /// returned. Process creation proper is an external collaborator; this is
    /// the bookkeeping the scheduling model needs of it.
    pub fn create_process(
        &mut self,
        pid: u64,
        state: ProcessState,
        address_space: Option<u64>,
        opened_files: u64,
        context: u64,
    ) -> (i: usize)
        requires
            old(self).wf(),
            pid != 0,
            forall|j: int| 0 <= j < old(self).procs@.len()
                ==> old(self).procs@[j].pid != pid,
        ensures
            final(self).wf(),
            i == old(self).procs@.len(),
            final(self).procs@ == old(self).procs@.push(Process {
                pid,
                state,
                address_space,
                opened_files,
                inner_locked: false,
                context,
            }),
            final(self).scheduler == old(self).scheduler,
            final(self).cpu == old(self).cpu,
            old(self).quiescent() ==> final(self).quiescent(),
    {
        let i = self.procs.len();
        self.procs.push(Process {
            pid,
            state,
            address_space,
            opened_files,
            inner_locked: false,
            context,
        });
        i
    }

    /// Puts a runnable process that is neither running nor queued back into
    /// the run queue: the external wake-up path for a blocked process made
    /// runnable again.
    pub fn enqueue(&mut self, p: usize)
        requires
            old(self).wf(),
            old(self).valid_index(p),
            old(self).procs@[p as int].state is Runnable,
            p != old(self).cpu.idle,
            p != old(self).cpu.current,
            !old(self).queue().contains(p),
        ensures
            final(self).wf(),
            final(self).queue() == old(self).queue().push(p),
            final(self).procs == old(self).procs,
            final(self).cpu == old(self).cpu,
            old(self).quiescent() ==> final(self).quiescent(),
    {
        self.scheduler.enqueue(p);
    }

    /// Whether `switch(new_state)` would put the running process back into
    /// the run queue.
    pub open spec fn spec_requeues(self, new_state: ProcessState) -> bool {
        requeues(self.cpu.current, self.cpu.idle, new_state)
    }

    /// Whether `switch(new_state)` takes the idle fast path and changes
    /// nothing.
    pub open spec fn spec_fast_path(self, new_state: ProcessState) -> bool {
        takes_fast_path(self.cpu.current, self.cpu.idle, self.queue(), new_state)
    }

    /// The process `switch(new_state)` transfers to, off the fast path.
    pub open spec fn spec_next(self, new_state: ProcessState) -> usize {
        next_choice(self.cpu.current, self.cpu.idle, self.queue(), new_state)
    }

    /// The run queue `switch(new_state)` leaves behind, off the fast path.
    pub open spec fn spec_queue_after(self, new_state: ProcessState) -> Seq<usize> {
        queue_after(self.cpu.current, self.cpu.idle, self.queue(), new_state)
    }

    /// Records a state transition decided by external process management; the
    /// engine itself only reads states. A queued process stays runnable.
    pub fn set_state(&mut self, p: usize, s: ProcessState)
        requires
            old(self).wf(),
            old(self).valid_index(p),
            old(self).queue().contains(p) ==> s is Runnable,
        ensures
            final(self).wf(),
            final(self).procs@ == old(self).procs@.update(
                p as int,
                Process { state: s, ..old(self).procs@[p as int] },
            ),
            final(self).scheduler == old(self).scheduler,
            final(self).cpu == old(self).cpu,
            old(self).quiescent() ==> final(self).quiescent(),
    {
        let pr = self.procs[p];
        self.procs[p] = Process { state: s, ..pr };
    }

    /// Acquires the exclusive lock on a process's saved-context block.
    /// Taking the spinlock disables interrupts on this CPU; the flag is
    /// restored not by a guard but by `switch` itself, because the guard is
    /// deliberately leaked across the register transfer.
    fn lock_inner(&mut self, i: usize)
        requires
            old(self).valid_index(i),
            !old(self).procs@[i as int].inner_locked,
        ensures
            final(self).procs@ == old(self).procs@.update(
                i as int,
                Process { inner_locked: true, ..old(self).procs@[i as int] },
            ),
            final(self).scheduler == old(self).scheduler,
            final(self).cpu.current == old(self).cpu.current,
            final(self).cpu.idle == old(self).cpu.idle,
            final(self).cpu.pending_unlocks == old(self).cpu.pending_unlocks,
            final(self).cpu.interrupt_enabled == false,
            final(self).cpu.active_space == old(self).cpu.active_space,
            final(self).cpu.live_context == old(self).cpu.live_context,
    {
        let pr = self.procs[i];
        self.procs[i] = Process { inner_locked: true, ..pr };
        self.cpu.interrupt_enabled = false;
    }
}

/// Whether a switch to `new_state` puts the outgoing process (`cur`) back
/// into the run queue: only a process that is not the idle process and stays
/// `Runnable` is requeued.
pub open spec fn requeues(cur: usize, idle: usize, new_state: ProcessState) -> bool {
    cur != idle && new_state is Runnable
}

/// The run queue once the outgoing process has been requeued, when it is.
pub open spec fn queue_mid(
    cur: usize,
    idle: usize,
    q: Seq<usize>,
    new_state: ProcessState,
) -> Seq<usize> {
    if requeues(cur, idle, new_state) {
        q.push(cur)
    } else {
        q
    }
}

/// Whether `switch` takes the idle fast path: nothing to run and the idle
/// process already current, so idle-to-idle would be a needless transfer.
pub open spec fn takes_fast_path(
    cur: usize,
    idle: usize,
    q: Seq<usize>,
    new_state: ProcessState,
) -> bool {
    queue_mid(cur, idle, q, new_state).len() == 0 && cur == idle
}

/// The process `switch` transfers to: the head of the run queue, or the idle
/// process when the queue is empty. Meaningful only off the fast path.
pub open spec fn next_choice(
    cur: usize,
    idle: usize,
    q: Seq<usize>,
    new_state: ProcessState,
) -> usize {
    let qm = queue_mid(cur, idle, q, new_state);
    if qm.len() > 0 {
        qm[0]
    } else {
        idle
    }
}

/// The run queue `switch` leaves behind, off the fast path.
pub open spec fn queue_after(
    cur: usize,
    idle: usize,
    q: Seq<usize>,
    new_state: ProcessState,
) -> Seq<usize> {
    let qm = queue_mid(cur, idle, q, new_state);
    if qm.len() > 0 {
        qm.drop_first()
    } else {
        qm
    }
}

/// One round of the rotation a `Runnable` switch performs on a non-empty
/// queue: the head becomes current and the outgoing process goes to the tail.
pub open spec fn rr_step(cur: usize, q: Seq<usize>) -> (usize, Seq<usize>)
    recommends
        q.len() > 0,
{
    (q[0], q.drop_first().push(cur))
}

/// The post-switch trampoline: the unconditional first action of every
/// context entry. It drains this CPU's pending-unlock list — built by
/// whichever execution last performed a transfer into this CPU — and
/// force-releases each listed process's saved-context lock, bypassing the
/// normal ownership discipline, because the control now running is not the
/// one that acquired them. Afterwards the list is empty, as the next `switch`
/// on this CPU demands.
pub fn after_switch(kernel: &mut Kernel)
    requires
        forall|k: int| 0 <= k < old(kernel).pending().len()
            ==> old(kernel).valid_index(#[trigger] old(kernel).pending()[k]),
    ensures
        final(kernel).pending().len() == 0,
        final(kernel).procs@.len() == old(kernel).procs@.len(),
        forall|i: usize| i < old(kernel).procs@.len()
            ==> final(kernel).procs@[i as int] == (if old(kernel).pending().contains(i) {
                unlocked(old(kernel).procs@[i as int])
            } else {
                old(kernel).procs@[i as int]
            }),
        final(kernel).scheduler == old(kernel).scheduler,
        final(kernel).cpu.current == old(kernel).cpu.current,
        final(kernel).cpu.idle == old(kernel).cpu.idle,
        final(kernel).cpu.interrupt_enabled == old(kernel).cpu.interrupt_enabled,
        final(kernel).cpu.active_space == old(kernel).cpu.active_space,
        final(kernel).cpu.live_context == old(kernel).cpu.live_context,
{
    let drained: Vec<usize> = pending_drain(&mut kernel.cpu.pending_unlocks);
    proof {
        assert forall|j: int| 0 <= j < drained@.len() implies
            old(kernel).valid_index(#[trigger] drained@[j]) by {
            assert(old(kernel).pending()[j] == drained@[j]);
        }
    }
    let mut k: usize = 0;
    while k < drained.len()
        invariant
            k <= drained@.len(),
            drained@ == old(kernel).pending(),
            forall|j: int| 0 <= j < drained@.len()
                ==> old(kernel).valid_index(#[trigger] drained@[j]),
            kernel.procs@.len() == old(kernel).procs@.len(),
            forall|i: usize| i < old(kernel).procs@.len()
                ==> kernel.procs@[i as int] == (if drained@.take(k as int).contains(i) {
                    unlocked(old(kernel).procs@[i as int])
                } else {
                    old(kernel).procs@[i as int]
                }),
            kernel.scheduler == old(kernel).scheduler,
            kernel.cpu.current == old(kernel).cpu.current,
            kernel.cpu.idle == old(kernel).cpu.idle,
            kernel.cpu.interrupt_enabled == old(kernel).cpu.interrupt_enabled,
            kernel.cpu.active_space == old(kernel).cpu.active_space,
            kernel.cpu.live_context == old(kernel).cpu.live_context,
            pending_seq(kernel.cpu.pending_unlocks).len() == 0,
        decreases drained@.len() - k,
    {
        let i = drained[k];
        let pr = kernel.procs[i];
        kernel.procs[i] = Process { inner_locked: false, ..pr };
        proof {
            assert(drained@.take(k as int + 1) =~= drained@.take(k as int).push(drained@[k as int]));
            assert forall|x: usize| x < old(kernel).procs@.len() implies
                kernel.procs@[x as int] == (if drained@.take(k as int + 1).contains(x) {
                    unlocked(old(kernel).procs@[x as int])
                } else {
                    old(kernel).procs@[x as int]
                }) by {
                if drained@.take(k as int + 1).contains(x) {
                    if !drained@.take(k as int).contains(x) {
                        let w = choose|w: int|
                            0 <= w < drained@.take(k as int + 1).len()
                                && #[trigger] drained@.take(k as int + 1)[w] == x;
                        assert(w == k as int);
                        assert(x == i);
                    }
                } else {
                    assert(!drained@.take(k as int).contains(x)) by {
                        if drained@.take(k as int).contains(x) {
                            let w = choose|w: int|
                                0 <= w < drained@.take(k as int).len()
                                    && #[trigger] drained@.take(k as int)[w] == x;
                            assert(drained@.take(k as int + 1)[w] == x);
                        }
                    }
                    assert(x != i) by {
                        if x == i {
                            assert(drained@.take(k as int + 1)[k as int] == x);
                        }
                    }
                }
            }
        }
        k += 1;
    }
    proof {
        assert(drained@.take(drained@.len() as int) =~= drained@);
    }
}

/// The context-switch engine: voluntarily gives up this CPU after disposing
/// of the running process according to `new_state`.
///
/// The outgoing process is requeued only if it is not the idle process and
/// `new_state` is `Runnable`; a `Blocked` or `Exited` process is left out of
/// the queue until some external wake-up re-enqueues it. The head of the run
/// queue becomes current — the idle process if the queue is empty, and with
/// no change at all if the idle process was already running. The chosen
/// process is never the outgoing one. Off the fast path the register transfer
/// saves the live context into the outgoing process and loads the incoming
/// one's, the incoming process's address space (if it owns one) becomes
/// active, and by the time the call returns the trampoline has emptied the
/// pending-unlock list and released every saved-context lock; the
/// interrupt-enable flag always matches the one captured at entry.
#[verifier::rlimit(50)]
pub fn switch(kernel: &mut Kernel, new_state: ProcessState)
    requires
        old(kernel).wf(),
        old(kernel).quiescent(),
        // With an empty queue a requeued process would be picked right back:
        // the engine must never switch a process into itself.
        !(old(kernel).spec_requeues(new_state) && old(kernel).queue().len() == 0),
        // A process is requeued only while external bookkeeping holds it
        // runnable.
        old(kernel).spec_requeues(new_state)
            ==> old(kernel).procs@[old(kernel).cpu.current as int].state is Runnable,
    ensures
        final(kernel).wf(),
        final(kernel).quiescent(),
        final(kernel).cpu.interrupt_enabled == old(kernel).cpu.interrupt_enabled,
        final(kernel).cpu.idle == old(kernel).cpu.idle,
        final(kernel).procs@.len() == old(kernel).procs@.len(),
        forall|i: usize| i < old(kernel).procs@.len()
            ==> final(kernel).procs@[i as int].pid == old(kernel).procs@[i as int].pid
                && final(kernel).procs@[i as int].state == old(kernel).procs@[i as int].state
                && final(kernel).procs@[i as int].address_space
                    == old(kernel).procs@[i as int].address_space
                && final(kernel).procs@[i as int].opened_files
                    == old(kernel).procs@[i as int].opened_files,
        old(kernel).spec_fast_path(new_state) ==> *final(kernel) == *old(kernel),
        !old(kernel).spec_fast_path(new_state) ==> {
            &&& final(kernel).cpu.current == old(kernel).spec_next(new_state)
            &&& final(kernel).cpu.current != old(kernel).cpu.current
            &&& final(kernel).queue() == old(kernel).spec_queue_after(new_state)
            &&& final(kernel).procs@[old(kernel).cpu.current as int].context
                == old(kernel).cpu.live_context
            &&& forall|i: usize| i < old(kernel).procs@.len() && i != old(kernel).cpu.current
                ==> final(kernel).procs@[i as int].context == old(kernel).procs@[i as int].context
            &&& final(kernel).cpu.live_context
                == old(kernel).procs@[old(kernel).spec_next(new_state) as int].context
            &&& final(kernel).cpu.active_space == (
                if old(kernel).procs@[old(kernel).spec_next(new_state) as int].address_space
                    is Some {
                    old(kernel).procs@[old(kernel).spec_next(new_state) as int].address_space
                } else {
                    old(kernel).cpu.active_space
                })
        },
        // A process switched out as Blocked or Exited is absent from the run
        // queue afterwards.
        !(new_state is Runnable) ==> !final(kernel).queue().contains(old(kernel).cpu.current),
        // A Runnable switch on a non-empty queue performs one round-robin
        // rotation.
        old(kernel).spec_requeues(new_state) && old(kernel).queue().len() > 0
            ==> (final(kernel).cpu.current, final(kernel).queue())
                == rr_step(old(kernel).cpu.current, old(kernel).queue()),
{
    // Capture the interrupt flag: the guards that would normally restore it
    // are leaked across the transfer, so it is restored by hand at the end.
    let interrupt_enabled = kernel.cpu.interrupt_enabled;
    let prev = kernel.cpu.current;

    // Under the run-queue lock in the original: requeue the outgoing process
    // if it is still ready to run, then pick who runs next.
    if kernel.procs[prev].pid != 0 && new_state == ProcessState::Runnable {
        proof {
            assert(prev != kernel.cpu.idle);
            assert(!kernel.queue().contains(prev));
        }
        kernel.scheduler.enqueue(prev);
    }
    proof {
        if old(kernel).spec_requeues(new_state) {
            assert(old(kernel).procs@[prev as int].pid
                != old(kernel).procs@[old(kernel).cpu.idle as int].pid);
        }
        assert(kernel.queue() == queue_mid(
            prev,
            old(kernel).cpu.idle,
            old(kernel).queue(),
            new_state,
        ));
    }
    let next: usize;
    match kernel.scheduler.pick_next() {
        Some(n) => {
            next = n;
        },
        None => {
            if prev == kernel.cpu.idle {
                // Idle fast path: nothing to run and already idle.
                return;
            }
            next = kernel.cpu.idle;
        },
    }
    proof {
        assert(next == old(kernel).spec_next(new_state));
        assert(kernel.queue() == old(kernel).spec_queue_after(new_state));
    }

    // The invariant checks of the original: the trampoline of the previous
    // switch has run, and the engine never switches a process into itself.
    assert(kernel.pending().len() == 0);
    assert(next != prev);

    // Record prev then next for the trampoline, then take their locks; the
    // locks stay held across the transfer, not to the end of this scope.
    pending_push(&mut kernel.cpu.pending_unlocks, prev);
    pending_push(&mut kernel.cpu.pending_unlocks, next);
    kernel.lock_inner(prev);
    kernel.lock_inner(next);

    // Activate the incoming address space; a kernel-internal context keeps
    // the current mapping.
    if let Some(space) = kernel.procs[next].address_space {
        kernel.cpu.active_space = Some(space);
    }

    kernel.cpu.current = next;

    // The register transfer: save the live context into the outgoing process
    // and load the incoming process's saved one.
    let live = kernel.cpu.live_context;
    let pr = kernel.procs[prev];
    kernel.procs[prev] = Process { context: live, ..pr };
    kernel.cpu.live_context = kernel.procs[next].context;

    proof {
        assert(kernel.pending() =~= Seq::<usize>::empty().push(prev).push(next));
        assert(kernel.pending().contains(prev)) by {
            assert(kernel.pending()[0] == prev);
        }
        assert(kernel.pending().contains(next)) by {
            assert(kernel.pending()[1] == next);
        }
        assert forall|j: int| 0 <= j < kernel.pending().len() implies
            kernel.valid_index(#[trigger] kernel.pending()[j]) by {
            assert(kernel.pending()[0] == prev && kernel.pending()[1] == next);
        }
    }
    let ghost mid: Kernel = *kernel;

    // First action on any context entry: drain the pending-unlock list.
    after_switch(kernel);

    proof {
        assert forall|i: usize| i < kernel.procs@.len() implies
            !kernel.procs@[i as int].inner_locked by {
            if !mid.pending().contains(i) {
                assert(i != prev && i != next);
                assert(mid.procs@[i as int] == old(kernel).procs@[i as int]);
            }
        }
    }

    // Restore the interrupt flag by hand: the leaked guards cannot.
    if interrupt_enabled {
        kernel.cpu.interrupt_enabled = true;
    }
    proof {
        if !(new_state is Runnable) {
            assert(!kernel.queue().contains(prev));
        }
        if old(kernel).spec_requeues(new_state) && old(kernel).queue().len() > 0 {
            assert(kernel.queue() =~= rr_step(old(kernel).cpu.current, old(kernel).queue()).1);
        }
    }
}

/// The scheduling state `n` consecutive Runnable switches reach from current
/// process `cur` and run queue `q`: each round applies one `rr_step` rotation.
pub open spec fn rr_iter(cur: usize, q: Seq<usize>, n: nat) -> (usize, Seq<usize>)
    decreases n,
{
    if n == 0 {
        (cur, q)
    } else {
        let prior = rr_iter(cur, q, (n - 1) as nat);
        rr_step(prior.0, prior.1)
    }
}

/// After `n` rotation rounds the current process is the queue's entry `n - 1`,
/// and the queue holds the not-yet-visited entries followed by the visited
/// ones in visiting order.
proof fn lemma_rr_state(cur: usize, q: Seq<usize>, n: int)
    requires
        1 <= n <= q.len(),
    ensures
        rr_iter(cur, q, n as nat).0 == q[n - 1],
        rr_iter(cur, q, n as nat).1
            == q.subrange(n, q.len() as int) + seq![cur] + q.subrange(0, n - 1),
    decreases n,
{
    if n == 1 {
        assert(rr_iter(cur, q, 0nat) == (cur, q));
        assert(rr_iter(cur, q, 1nat) == rr_step(cur, q));
        assert(q.drop_first().push(cur)
            =~= q.subrange(1, q.len() as int) + seq![cur] + q.subrange(0, 0));
    } else {
        lemma_rr_state(cur, q, n - 1);
        let prior = rr_iter(cur, q, (n - 1) as nat);
        let rest = q.subrange(n - 1, q.len() as int) + seq![cur] + q.subrange(0, n - 2);
        assert(prior.1 == rest);
        assert(rest.len() == q.len() + 1 - n + 1 + n - 2);
        assert(rest[0] == q[n - 1]);
        assert(rr_iter(cur, q, n as nat) == rr_step(prior.0, prior.1));
        assert(rest.drop_first().push(q[n - 2])
            =~= q.subrange(n, q.len() as int) + seq![cur] + q.subrange(0, n - 1));
    }
}

/// Round-robin order: starting from a run queue of distinct processes, the
/// processes that consecutive Runnable switches make current — each switch
/// performing one `rr_step` rotation, as `switch` ensures on a non-empty
/// queue — are exactly the queue's entries in queue order: every one of the
/// `q.len()` runnable processes is visited exactly once before any repeats.
pub proof fn lemma_round_robin(cur: usize, q: Seq<usize>, i: int, j: int)
    requires
        0 <= i < q.len(),
        0 <= j < q.len(),
        forall|k1: int, k2: int|
            0 <= k1 < q.len() && 0 <= k2 < q.len() && k1 != k2 ==> q[k1] != q[k2],
    ensures
        rr_iter(cur, q, (i + 1) as nat).0 == q[i],
        i != j ==> rr_iter(cur, q, (i + 1) as nat).0 != rr_iter(cur, q, (j + 1) as nat).0,
{
    lemma_rr_state(cur, q, i + 1);
    lemma_rr_state(cur, q, j + 1);
}

/// No self-switch: wherever `switch` performs a transfer, the process it
/// chooses to run next is never the one switching out.
pub proof fn lemma_no_self_switch(cur: usize, idle: usize, q: Seq<usize>, new_state: ProcessState)
    requires
        !q.contains(cur),
        !(requeues(cur, idle, new_state) && q.len() == 0),
        !takes_fast_path(cur, idle, q, new_state),
    ensures
        next_choice(cur, idle, q, new_state) != cur,
{
    let qm = queue_mid(cur, idle, q, new_state);
    if qm.len() > 0 {
        if requeues(cur, idle, new_state) {
            assert(q.len() > 0);
            assert(qm[0] == q[0]);
        }
        assert(qm[0] != cur) by {
            if q.len() > 0 && q[0] == cur {
                assert(q.contains(cur));
            }
        }
    } else {
        assert(cur != idle);
    }
}

/// No duplicate presence: in a well-formed kernel no process stands in the
/// run queue more than once, and a queued process is never the one a CPU is
/// currently running.
pub proof fn lemma_no_duplicate_presence(kernel: Kernel)
    requires
        kernel.wf(),
    ensures
        forall|k1: int, k2: int|
            0 <= k1 < kernel.queue().len() && 0 <= k2 < kernel.queue().len() && k1 != k2
                ==> kernel.queue()[k1] != kernel.queue()[k2],
        forall|k: int| 0 <= k < kernel.queue().len()
            ==> #[trigger] kernel.queue()[k] != kernel.cpu.current,
{
}

/// Non-requeue persistence: a process that is neither running nor queued —
/// as one just switched out Blocked or Exited is — is not chosen by a further
/// `switch` and is still neither running nor queued afterwards, whatever
/// state that switch's caller passes; only an external enqueue readmits it.
pub proof fn lemma_absent_stays_absent(
    cur: usize,
    idle: usize,
    q: Seq<usize>,
    absent: usize,
    new_state: ProcessState,
)
    requires
        absent != cur,
        absent != idle,
        !q.contains(absent),
    ensures
        next_choice(cur, idle, q, new_state) != absent,
        !queue_after(cur, idle, q, new_state).contains(absent),
{
    let qm = queue_mid(cur, idle, q, new_state);
    assert(!qm.contains(absent)) by {
        if qm.contains(absent) {
            let w = choose|w: int| 0 <= w < qm.len() && #[trigger] qm[w] == absent;
            if requeues(cur, idle, new_state) && w == q.len() as int {
                assert(qm[w] == cur);
            } else {
                assert(q[w] == absent);
                assert(q.contains(absent));
            }
        }
    }
    if qm.len() > 0 {
        assert(qm[0] != absent) by {
            if qm[0] == absent {
                assert(qm.contains(absent));
            }
        }
        assert(!qm.drop_first().contains(absent)) by {
            if qm.drop_first().contains(absent) {
                let w = choose|w: int|
                    0 <= w < qm.drop_first().len() && #[trigger] qm.drop_first()[w] == absent;
                assert(qm[w + 1] == absent);
                assert(qm.contains(absent));
            }
        }
    }
}

} // verus!
