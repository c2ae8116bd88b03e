use vstd::prelude::*;

use crate::cell::{dist, wrap_inc, Acquire, CellView, LockFault, Ticket};
use crate::platform::{Context, NO_OWNER};

verus! {

/// Mutual exclusion: while a core holds the lock, no acquisition step, blocking
/// or not, grants it to anyone.
pub proof fn lemma_acquire_excludes_holder<T>(
    pre: CellView<T>,
    ctx: Context,
    try_lock: bool,
    post: CellView<T>,
    r: Result<Acquire, LockFault>,
)
    requires
        pre.wf(),
        pre.is_held(),
        pre.acquire_step(ctx, try_lock, post, r),
    ensures
        !(r matches Ok(Acquire::Granted(_))),
{
}

/// Mutual exclusion: while a core holds the lock, no poll of a waiting ticket
/// grants it.
pub proof fn lemma_poll_excludes_holder<T>(
    pre: CellView<T>,
    t: Ticket,
    post: CellView<T>,
    r: Result<Acquire, LockFault>,
)
    requires
        pre.wf(),
        pre.is_held(),
        pre.is_waiting(t),
        pre.poll_step(t, post, r),
    ensures
        !(r matches Ok(Acquire::Granted(_))),
{
}

/// Fairness: of two waiting tickets, the one drawn later is not granted while
/// the earlier one still waits.
pub proof fn lemma_fifo_grant<T>(
    pre: CellView<T>,
    earlier: Ticket,
    later: Ticket,
    post: CellView<T>,
    r: Result<Acquire, LockFault>,
)
    requires
        pre.wf(),
        pre.is_waiting(earlier),
        pre.is_waiting(later),
        dist(pre.release, earlier.number()) < dist(pre.release, later.number()),
        pre.poll_step(later, post, r),
    ensures
        !(r matches Ok(Acquire::Granted(_))),
{
}

/// Fairness: a new ticket is queued behind every ticket that already waits,
/// which keep their places.
pub proof fn lemma_draw_queues_last<T>(
    pre: CellView<T>,
    ctx: Context,
    waiting: Ticket,
    post: CellView<T>,
    r: Result<Acquire, LockFault>,
)
    requires
        pre.wf(),
        pre.outstanding() < 0xffff_ffff,
        pre.is_waiting(waiting),
        pre.acquire_step(ctx, false, post, r),
        r is Ok,
    ensures
        post.is_waiting(waiting),
        dist(post.release, waiting.number()) == dist(pre.release, waiting.number()),
        r matches Ok(Acquire::Queued(t)) && post.is_waiting(t) && dist(post.release, waiting.number())
            < dist(post.release, t.number()),
{
    assert(post.outstanding() == pre.outstanding() + 1);
}

/// Fairness: a try-acquisition never overtakes a waiting ticket.
pub proof fn lemma_try_never_overtakes<T>(
    pre: CellView<T>,
    ctx: Context,
    waiting: Ticket,
    post: CellView<T>,
    r: Result<Acquire, LockFault>,
)
    requires
        pre.wf(),
        pre.is_waiting(waiting),
        pre.acquire_step(ctx, true, post, r),
    ensures
        !(r matches Ok(Acquire::Granted(_))),
        post == pre,
{
}

/// Fairness: each release moves every waiting ticket one place closer to its
/// turn, so that the ticket at distance `k` is granted after exactly `k`
/// releases.
pub proof fn lemma_release_advances_queue<T>(
    pre: CellView<T>,
    waiting: Ticket,
    post: CellView<T>,
)
    requires
        pre.wf(),
        pre.is_held(),
        pre.is_waiting(waiting),
        pre.unlock_step(post),
    ensures
        post.is_waiting(waiting),
        dist(post.release, waiting.number()) + 1 == dist(pre.release, waiting.number()),
{
}

/// A try-acquisition never waits: it takes no ticket that would have to be
/// polled, and when it fails the lock is left exactly as it was.
pub proof fn lemma_try_never_waits<T>(
    pre: CellView<T>,
    ctx: Context,
    post: CellView<T>,
    r: Result<Acquire, LockFault>,
)
    requires
        pre.acquire_step(ctx, true, post, r),
    ensures
        !(r matches Ok(Acquire::Queued(_))),
        !(r matches Ok(Acquire::Granted(_))) ==> post == pre,
{
}

/// Guaranteed release: taking a free lock and releasing it leaves it free, with
/// both counters one step further and interrupts back at the depth they had
/// before the acquisition.
pub proof fn lemma_release_restores<T>(
    pre: CellView<T>,
    ctx: Context,
    try_lock: bool,
    held: CellView<T>,
    r: Result<Acquire, LockFault>,
    post: CellView<T>,
)
    requires
        pre.wf(),
        pre.acquire_step(ctx, try_lock, held, r),
        r matches Ok(Acquire::Granted(_)),
        held.unlock_step(post),
    ensures
        post.wf(),
        !post.is_held(),
        post.interrupt_depth == pre.interrupt_depth,
        post.ticket == wrap_inc(pre.ticket),
        post.release == wrap_inc(pre.release),
        post.outstanding() == 0,
{
}

/// A blocking acquisition by the core that already holds the lock is always
/// fatal: it is never granted and never left waiting.
pub proof fn lemma_self_reacquire_is_fatal<T>(
    pre: CellView<T>,
    ctx: Context,
    post: CellView<T>,
    r: Result<Acquire, LockFault>,
)
    requires
        pre.wf(),
        ctx.core_id != NO_OWNER,
        pre.owner == ctx.core_id,
        pre.acquire_step(ctx, false, post, r),
    ensures
        r is Err,
        context_allows(pre, ctx) ==> r == Err::<Acquire, LockFault>(LockFault::Deadlock),
{
}

/// A poll by a core that holds the lock through another ticket is fatal.
pub proof fn lemma_holder_poll_is_fatal<T>(
    pre: CellView<T>,
    t: Ticket,
    post: CellView<T>,
    r: Result<Acquire, LockFault>,
)
    requires
        pre.wf(),
        pre.is_waiting(t),
        pre.owner == t.core_id(),
        t.core_id() != NO_OWNER,
        pre.poll_step(t, post, r),
    ensures
        r == Err::<Acquire, LockFault>(LockFault::Deadlock),
{
}

/// Whether a blocking acquisition in `ctx` passes the interrupt policy of a lock
/// in state `pre`.
pub open spec fn context_allows<T>(pre: CellView<T>, ctx: Context) -> bool {
    crate::cell::context_verdict(pre.disables_interrupts, false, ctx) is Ok
}

/// Interrupt policy: taking a lock that leaves interrupts enabled inside an
/// interrupt, or blocking inside an exception, is always fatal and changes
/// nothing.
pub proof fn lemma_policy_violation_is_fatal<T>(
    pre: CellView<T>,
    ctx: Context,
    try_lock: bool,
    post: CellView<T>,
    r: Result<Acquire, LockFault>,
)
    requires
        pre.acquire_step(ctx, try_lock, post, r),
        (!pre.disables_interrupts && ctx.in_interrupt) || (!try_lock && ctx.in_exception),
    ensures
        r is Err,
        r != Err::<Acquire, LockFault>(LockFault::Deadlock),
        post == pre,
{
}

} // verus!
