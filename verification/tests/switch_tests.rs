use sched_core::process::ProcessState;
use sched_core::switch::{after_switch, switch, Kernel};

fn queue_of(k: &Kernel) -> Vec<usize> {
    k.scheduler.run_queue.clone()
}

#[test]
fn idle_fast_path_changes_nothing() {
    let mut k = Kernel::boot(true, 7);
    switch(&mut k, ProcessState::Runnable);
    assert_eq!(k.cpu.current, 0);
    assert!(queue_of(&k).is_empty());
    assert!(k.cpu.interrupt_enabled);
    assert_eq!(k.cpu.live_context, 7);
    assert!(k.cpu.active_space.is_none());
    assert_eq!(k.procs[0].context, 7);
}

#[test]
fn scenario_two_runnable_round_robin() {
    let mut k = Kernel::boot(false, 0);
    let a = k.create_process(1, ProcessState::Runnable, None, 0, 11);
    let b = k.create_process(2, ProcessState::Runnable, None, 0, 22);
    k.enqueue(a);
    k.enqueue(b);

    // Idle hands the CPU to A, the queue head.
    switch(&mut k, ProcessState::Runnable);
    assert_eq!(k.cpu.current, a);
    assert_eq!(queue_of(&k), vec![b]);

    // A yields: A is enqueued, B dequeued and becomes current.
    switch(&mut k, ProcessState::Runnable);
    assert_eq!(k.cpu.current, b);
    assert_eq!(queue_of(&k), vec![a]);

    // B yields: B is enqueued, A becomes current again.
    switch(&mut k, ProcessState::Runnable);
    assert_eq!(k.cpu.current, a);
    assert_eq!(queue_of(&k), vec![b]);
}

#[test]
fn round_robin_visits_each_once_before_repeats() {
    let mut k = Kernel::boot(false, 0);
    let mut created = Vec::new();
    for pid in 1..=3u64 {
        let i = k.create_process(pid, ProcessState::Runnable, None, 0, pid);
        created.push(i);
        k.enqueue(i);
    }
    switch(&mut k, ProcessState::Runnable);
    let first = k.cpu.current;
    let mut visited = vec![first];
    for _ in 0..2 {
        switch(&mut k, ProcessState::Runnable);
        visited.push(k.cpu.current);
    }
    // Three consecutive switches visit all three exactly once.
    let mut sorted = visited.clone();
    sorted.sort();
    assert_eq!(sorted, created);
    // The fourth revisits the first: the rotation repeats.
    switch(&mut k, ProcessState::Runnable);
    assert_eq!(k.cpu.current, first);
}

#[test]
fn scenario_blocked_process_needs_external_wake() {
    let mut k = Kernel::boot(false, 0);
    let a = k.create_process(1, ProcessState::Runnable, None, 0, 11);
    let b = k.create_process(2, ProcessState::Runnable, None, 0, 22);
    k.enqueue(a);
    switch(&mut k, ProcessState::Runnable);
    assert_eq!(k.cpu.current, a);
    k.enqueue(b);

    // A blocks: B becomes current and A is in neither queue nor CPU.
    k.set_state(a, ProcessState::Blocked);
    switch(&mut k, ProcessState::Blocked);
    assert_eq!(k.cpu.current, b);
    assert!(!queue_of(&k).contains(&a));

    // An external wake re-enqueues A; a later switch schedules it.
    k.set_state(a, ProcessState::Runnable);
    k.enqueue(a);
    switch(&mut k, ProcessState::Runnable);
    assert_eq!(k.cpu.current, a);
}

#[test]
fn scenario_exited_process_is_never_selected_again() {
    let mut k = Kernel::boot(false, 0);
    let a = k.create_process(1, ProcessState::Runnable, None, 0, 11);
    let b = k.create_process(2, ProcessState::Runnable, None, 0, 22);
    k.enqueue(a);
    switch(&mut k, ProcessState::Runnable);
    assert_eq!(k.cpu.current, a);
    k.enqueue(b);

    // A exits: it is permanently out of the run queue.
    k.set_state(a, ProcessState::Exited);
    switch(&mut k, ProcessState::Exited);
    assert_eq!(k.cpu.current, b);
    assert!(!queue_of(&k).contains(&a));

    // B blocks with an empty queue: the idle process takes over; A stays out.
    k.set_state(b, ProcessState::Blocked);
    switch(&mut k, ProcessState::Blocked);
    assert_eq!(k.cpu.current, k.cpu.idle);
    assert!(!queue_of(&k).contains(&a));

    // B wakes and runs again; A is still never chosen.
    k.set_state(b, ProcessState::Runnable);
    k.enqueue(b);
    switch(&mut k, ProcessState::Runnable);
    assert_eq!(k.cpu.current, b);
    assert!(!queue_of(&k).contains(&a));
}

#[test]
fn interrupt_flag_survives_a_transfer() {
    let mut k = Kernel::boot(true, 0);
    let a = k.create_process(1, ProcessState::Runnable, None, 0, 11);
    k.enqueue(a);
    switch(&mut k, ProcessState::Runnable);
    assert_eq!(k.cpu.current, a);
    assert!(k.cpu.interrupt_enabled);

    let mut k2 = Kernel::boot(false, 0);
    let a2 = k2.create_process(1, ProcessState::Runnable, None, 0, 11);
    k2.enqueue(a2);
    switch(&mut k2, ProcessState::Runnable);
    assert_eq!(k2.cpu.current, a2);
    assert!(!k2.cpu.interrupt_enabled);
}

#[test]
fn trampoline_leaves_no_lock_held() {
    let mut k = Kernel::boot(false, 0);
    let a = k.create_process(1, ProcessState::Runnable, None, 0, 11);
    let b = k.create_process(2, ProcessState::Runnable, None, 0, 22);
    k.enqueue(a);
    k.enqueue(b);
    switch(&mut k, ProcessState::Runnable);
    switch(&mut k, ProcessState::Runnable);
    assert!(k.cpu.pending_unlocks.is_empty());
    for p in &k.procs {
        assert!(!p.inner_locked);
    }
}

#[test]
fn register_transfer_saves_and_loads_contexts() {
    let mut k = Kernel::boot(false, 100);
    let a = k.create_process(1, ProcessState::Runnable, None, 0, 200);
    let b = k.create_process(2, ProcessState::Runnable, None, 0, 300);
    k.enqueue(a);
    k.enqueue(b);

    // Idle to A: idle's context takes the live one, A's becomes live.
    switch(&mut k, ProcessState::Runnable);
    assert_eq!(k.procs[0].context, 100);
    assert_eq!(k.cpu.live_context, 200);

    // A to B: A's saved slot takes the live context.
    switch(&mut k, ProcessState::Runnable);
    assert_eq!(k.procs[a].context, 200);
    assert_eq!(k.cpu.live_context, 300);
}

#[test]
fn address_space_activated_only_when_owned() {
    let mut k = Kernel::boot(false, 0);
    let a = k.create_process(1, ProcessState::Runnable, Some(5), 0, 11);
    k.enqueue(a);
    switch(&mut k, ProcessState::Runnable);
    assert_eq!(k.cpu.current, a);
    assert_eq!(k.cpu.active_space, Some(5));

    // A blocks; the idle process has no address space of its own, so the
    // mapping stays as it was.
    k.set_state(a, ProcessState::Blocked);
    switch(&mut k, ProcessState::Blocked);
    assert_eq!(k.cpu.current, k.cpu.idle);
    assert_eq!(k.cpu.active_space, Some(5));
}

#[test]
fn trampoline_on_quiet_cpu_is_a_no_op() {
    let mut k = Kernel::boot(true, 9);
    after_switch(&mut k);
    assert!(k.cpu.pending_unlocks.is_empty());
    assert_eq!(k.cpu.current, 0);
    assert!(k.cpu.interrupt_enabled);
    assert_eq!(k.procs[0].context, 9);
}
