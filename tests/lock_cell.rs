use lockcell::cell::{check_context, Acquire, LockCell, LockCellGuard, LockFault, Ticket};
use lockcell::platform::{Context, InterruptState, NO_OWNER};

/// A core in ordinary execution.
struct Thread;

impl InterruptState for Thread {
    fn in_interrupt() -> bool {
        false
    }
    fn in_exception() -> bool {
        false
    }
    fn core_id() -> u32 {
        0
    }
    fn enter_lock() {}
    fn exit_lock() {}
}

/// A core running an interrupt handler.
struct Interrupt;

impl InterruptState for Interrupt {
    fn in_interrupt() -> bool {
        true
    }
    fn in_exception() -> bool {
        false
    }
    fn core_id() -> u32 {
        1
    }
    fn enter_lock() {}
    fn exit_lock() {}
}

/// A core running an exception handler.
struct Exception;

impl InterruptState for Exception {
    fn in_interrupt() -> bool {
        false
    }
    fn in_exception() -> bool {
        true
    }
    fn core_id() -> u32 {
        2
    }
    fn enter_lock() {}
    fn exit_lock() {}
}

fn on_core(id: u32) -> Context {
    Context { in_interrupt: false, in_exception: false, core_id: id }
}

fn granted(r: Result<Acquire, LockFault>) -> LockCellGuard {
    match r {
        Ok(Acquire::Granted(g)) => g,
        other => panic!("expected a grant, got {:?}", other),
    }
}

fn queued(r: Result<Acquire, LockFault>) -> Ticket {
    match r {
        Ok(Acquire::Queued(t)) => t,
        other => panic!("expected a queued ticket, got {:?}", other),
    }
}

#[test]
fn new_cell_is_free_and_preemptable() {
    let cell: LockCell<u32, Thread> = LockCell::new(3);
    assert!(!cell.is_locked());
    assert!(!cell.disables_interrupts());
}

#[test]
fn new_no_preempt_cell_disables_interrupts() {
    let cell: LockCell<u32, Thread> = LockCell::new_no_preempt(3);
    assert!(!cell.is_locked());
    assert!(cell.disables_interrupts());
}

#[test]
fn try_write_then_blocking_read() {
    let mut cell: LockCell<u32, Thread> = LockCell::new(0);
    let a = granted(cell.acquire_in(on_core(10), true));
    *cell.get_mut(&a) = 1;
    cell.unlock(a);
    let b = granted(cell.acquire_in(on_core(11), false));
    assert_eq!(*cell.get(&b), 1);
    cell.unlock(b);
    assert!(!cell.is_locked());
}

#[test]
fn try_fails_while_held_and_succeeds_after_release() {
    let mut cell: LockCell<u32, Thread> = LockCell::new(0);
    let a = granted(cell.acquire_in(on_core(10), false));
    assert!(cell.is_locked());
    assert!(matches!(cell.acquire_in(on_core(11), true), Ok(Acquire::Busy)));
    cell.unlock(a);
    assert!(!cell.is_locked());
    let b = granted(cell.acquire_in(on_core(11), true));
    assert!(cell.is_locked());
    cell.unlock(b);
}

#[test]
fn blocking_acquisitions_are_granted_in_ticket_order() {
    let mut cell: LockCell<Vec<u32>, Thread> = LockCell::new(Vec::new());
    let a = granted(cell.acquire_in(on_core(10), false));
    let tb = queued(cell.acquire_in(on_core(11), false));
    let tc = queued(cell.acquire_in(on_core(12), false));
    let tc = queued(cell.poll(tc));
    let tb = queued(cell.poll(tb));
    cell.get_mut(&a).push(10);
    cell.unlock(a);
    // C polls first, yet B's turn comes first.
    let tc = queued(cell.poll(tc));
    let b = granted(cell.poll(tb));
    cell.get_mut(&b).push(11);
    let tc = queued(cell.poll(tc));
    cell.unlock(b);
    let c = granted(cell.poll(tc));
    cell.get_mut(&c).push(12);
    assert_eq!(*cell.get(&c), vec![10, 11, 12]);
    cell.unlock(c);
    assert!(!cell.is_locked());
}

#[test]
fn try_does_not_overtake_a_waiting_ticket() {
    let mut cell: LockCell<u32, Thread> = LockCell::new(0);
    let a = granted(cell.acquire_in(on_core(10), false));
    let tb = queued(cell.acquire_in(on_core(11), false));
    cell.unlock(a);
    // B's turn has come but B has not polled yet: the lock is not free.
    assert!(!cell.is_locked());
    assert!(matches!(cell.acquire_in(on_core(12), true), Ok(Acquire::Busy)));
    let b = granted(cell.poll(tb));
    cell.unlock(b);
    let c = granted(cell.acquire_in(on_core(12), true));
    cell.unlock(c);
}

#[test]
fn preemptable_cell_in_interrupt_is_fatal() {
    let mut cell: LockCell<u32, Thread> = LockCell::new(0);
    let irq = Context { in_interrupt: true, in_exception: false, core_id: 10 };
    assert!(matches!(cell.acquire_in(irq, false), Err(LockFault::InterruptContext)));
    assert!(matches!(cell.acquire_in(irq, true), Err(LockFault::InterruptContext)));
    assert!(!cell.is_locked());
}

#[test]
fn preemptable_cell_locked_from_interrupt_platform_is_fatal() {
    let mut cell: LockCell<u32, Interrupt> = LockCell::new(0);
    assert!(matches!(cell.lock(), Err(LockFault::InterruptContext)));
    assert!(matches!(cell.try_lock(), Err(LockFault::InterruptContext)));
}

#[test]
fn no_preempt_cell_may_be_taken_in_interrupt() {
    let mut cell: LockCell<u32, Interrupt> = LockCell::new_no_preempt(0);
    let g = granted(cell.lock());
    *cell.get_mut(&g) = 4;
    cell.unlock(g);
    let g = cell.try_lock().unwrap().unwrap();
    assert_eq!(*cell.get(&g), 4);
    cell.unlock(g);
}

#[test]
fn blocking_in_exception_is_fatal() {
    let mut cell: LockCell<u32, Exception> = LockCell::new_no_preempt(0);
    assert!(matches!(cell.lock(), Err(LockFault::ExceptionContext)));
    assert!(!cell.is_locked());
    let g = cell.try_lock().unwrap().unwrap();
    assert!(cell.is_locked());
    cell.unlock(g);
}

#[test]
fn self_reacquisition_is_fatal() {
    let mut cell: LockCell<u32, Thread> = LockCell::new(0);
    let g = granted(cell.lock());
    assert!(matches!(cell.lock(), Err(LockFault::Deadlock)));
    let mut other: LockCell<u32, Thread> = LockCell::new(0);
    let h = granted(other.acquire_in(on_core(10), false));
    assert!(matches!(other.acquire_in(on_core(10), false), Err(LockFault::Deadlock)));
    other.unlock(h);
    cell.unlock(g);
}

#[test]
fn waiting_core_that_takes_the_lock_deadlocks_on_poll() {
    let mut cell: LockCell<u32, Thread> = LockCell::new(0);
    let a = granted(cell.acquire_in(on_core(10), false));
    let tb = queued(cell.acquire_in(on_core(11), false));
    let tc = queued(cell.acquire_in(on_core(11), false));
    cell.unlock(a);
    let b = granted(cell.poll(tb));
    assert!(matches!(cell.poll(tc), Err(LockFault::Deadlock)));
    cell.unlock(b);
}

#[test]
fn try_by_the_holder_is_not_acquired() {
    let mut cell: LockCell<u32, Thread> = LockCell::new(0);
    let g = cell.try_lock().unwrap().unwrap();
    assert!(cell.try_lock().unwrap().is_none());
    cell.unlock(g);
}

#[test]
fn shatter_and_guard_share_storage() {
    let mut cell: LockCell<u32, Thread> = LockCell::new(0);
    *cell.shatter() = 5;
    let g = granted(cell.lock());
    assert_eq!(*cell.get(&g), 5);
    *cell.get_mut(&g) = 7;
    assert_eq!(*cell.shatter(), 7);
    cell.unlock(g);
    assert_eq!(*cell.shatter(), 7);
}

#[test]
fn release_frees_the_lock_for_the_next_acquisition() {
    let mut cell: LockCell<u32, Thread> = LockCell::new_no_preempt(0);
    for i in 0..1000u32 {
        let g = granted(cell.lock());
        *cell.get_mut(&g) += i;
        cell.unlock(g);
        assert!(!cell.is_locked());
    }
    let g = cell.try_lock().unwrap().unwrap();
    assert_eq!(*cell.get(&g), 499500);
    cell.unlock(g);
}

#[test]
fn context_policy() {
    let plain = on_core(3);
    let irq = Context { in_interrupt: true, in_exception: false, core_id: 3 };
    let exc = Context { in_interrupt: false, in_exception: true, core_id: 3 };
    let both = Context { in_interrupt: true, in_exception: true, core_id: 3 };
    assert_eq!(check_context(false, false, plain), Ok(()));
    assert_eq!(check_context(false, true, irq), Err(LockFault::InterruptContext));
    assert_eq!(check_context(true, true, irq), Ok(()));
    assert_eq!(check_context(true, false, exc), Err(LockFault::ExceptionContext));
    assert_eq!(check_context(true, true, exc), Ok(()));
    assert_eq!(check_context(false, false, both), Err(LockFault::InterruptContext));
    assert_eq!(check_context(true, false, both), Err(LockFault::ExceptionContext));
}

#[test]
fn sentinel_is_all_ones() {
    assert_eq!(NO_OWNER, !0u32);
}

#[test]
fn outstanding_counts_holder_and_waiters() {
    let mut cell: LockCell<u32, Thread> = LockCell::new(0);
    assert_eq!(cell.outstanding(), 0);
    let a = granted(cell.acquire_in(on_core(10), false));
    assert_eq!(cell.outstanding(), 1);
    let tb = queued(cell.acquire_in(on_core(11), false));
    assert_eq!(cell.outstanding(), 2);
    assert!(matches!(cell.acquire_in(on_core(12), true), Ok(Acquire::Busy)));
    assert_eq!(cell.outstanding(), 2);
    cell.unlock(a);
    assert_eq!(cell.outstanding(), 1);
    let b = granted(cell.poll(tb));
    assert_eq!(cell.outstanding(), 1);
    cell.unlock(b);
    assert_eq!(cell.outstanding(), 0);
}

#[test]
fn try_in_exception_is_allowed() {
    let mut cell: LockCell<u32, Exception> = LockCell::new(0);
    let g = cell.try_lock().unwrap().unwrap();
    assert!(cell.try_lock().unwrap().is_none());
    cell.unlock(g);
    assert!(!cell.is_locked());
}

#[test]
fn try_on_busy_no_preempt_cell_is_not_acquired() {
    let mut cell: LockCell<u32, Interrupt> = LockCell::new_no_preempt(0);
    let g = granted(cell.lock());
    assert!(cell.try_lock().unwrap().is_none());
    assert_eq!(cell.outstanding(), 1);
    cell.unlock(g);
    assert!(cell.try_lock().unwrap().is_some());
}
