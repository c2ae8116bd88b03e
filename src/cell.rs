use core::marker::PhantomData;
use vstd::prelude::*;

use crate::platform::{Context, InterruptState, NO_OWNER};

verus! {

/// The conditions under which the lock refuses to go on: each one is a
/// programming error, and the caller is expected to halt with a diagnostic.
#[derive(Clone, Copy, Debug, PartialEq, Eq, Structural)]
pub enum LockFault {
    /// The running core asked for a lock that it already holds.
    Deadlock,
    /// A lock that leaves interrupts enabled was taken inside an interrupt.
    InterruptContext,
    /// A blocking acquisition was attempted inside an exception.
    ExceptionContext,
}

/// A place in the queue of a lock: the ticket drawn by one blocking
/// acquisition, and the core that drew it.
#[derive(Debug)]
pub struct Ticket {
    number: u32,
    core_id: u32,
}

impl Ticket {
    pub closed spec fn number(&self) -> u32 {
        self.number
    }

    pub closed spec fn core_id(&self) -> u32 {
        self.core_id
    }
}

/// Exclusive access to the value of a lock, from a grant until `unlock`.
#[derive(Debug)]
pub struct LockCellGuard {
    ticket: u32,
    core_id: u32,
}

impl LockCellGuard {
    pub closed spec fn ticket(&self) -> u32 {
        self.ticket
    }

    pub closed spec fn core_id(&self) -> u32 {
        self.core_id
    }
}

/// The outcome of one acquisition step.
#[derive(Debug)]
pub enum Acquire {
    /// The lock was granted.
    Granted(LockCellGuard),
    /// A blocking acquisition holds this ticket and must poll it until its
    /// turn comes.
    Queued(Ticket),
    /// A try-acquisition found the lock taken, and gave up.
    Busy,
}

/// `x + 1`, wrapping at the width of the counters.
pub open spec fn wrap_inc(x: u32) -> u32 {
    if x == 0xffff_ffff {
        0
    } else {
        (x + 1) as u32
    }
}

/// How far the counter value `to` lies ahead of `from`, modulo the width of
/// the counters.
pub open spec fn dist(from: u32, to: u32) -> nat {
    if from <= to {
        (to - from) as nat
    } else {
        (to + 0x1_0000_0000 - from) as nat
    }
}

/// What a core must report for a lock to be taken: a lock that leaves
/// interrupts enabled may not be taken inside an interrupt, and a blocking
/// acquisition may not happen inside an exception.
pub open spec fn context_verdict(disables_interrupts: bool, try_lock: bool, ctx: Context) -> Result<
    (),
    LockFault,
> {
    if !disables_interrupts && ctx.in_interrupt {
        Err(LockFault::InterruptContext)
    } else if !try_lock && ctx.in_exception {
        Err(LockFault::ExceptionContext)
    } else {
        Ok(())
    }
}

/// A try-acquisition's result as the outcome of an acquisition step.
pub open spec fn try_outcome(r: Result<Option<LockCellGuard>, LockFault>) -> Result<Acquire, LockFault> {
    match r {
        Ok(Some(g)) => Ok(Acquire::Granted(g)),
        Ok(None) => Ok(Acquire::Busy),
        Err(e) => Err(e),
    }
}

/// The abstract state of a lock.
pub struct CellView<T> {
    /// The next ticket to be handed out.
    pub ticket: u32,
    /// The ticket whose turn it is.
    pub release: u32,
    /// The core that holds the lock, or `NO_OWNER`.
    pub owner: u32,
    /// Whether interrupts stay disabled while the lock is held or awaited.
    pub disables_interrupts: bool,
    /// The guarded value.
    pub value: T,
    /// How many `enter_lock` calls this lock has made and not yet undone.
    pub interrupt_depth: nat,
}

impl<T> CellView<T> {
    /// Tickets handed out and not yet released: the holder's and those of
    /// the waiting acquisitions.
    pub open spec fn outstanding(self) -> nat {
        dist(self.release, self.ticket)
    }

    pub open spec fn is_held(self) -> bool {
        self.owner != NO_OWNER
    }

    /// How many `enter_lock` calls one acquisition of this lock makes.
    pub open spec fn interrupt_step(self) -> nat {
        if self.disables_interrupts {
            1
        } else {
            0
        }
    }

    /// The invariant of the protocol: a held lock has its holder's ticket
    /// outstanding (so a free lock has no owner when `release == ticket`),
    /// and interrupts are disabled once for each outstanding ticket of a
    /// lock that disables them.
    pub open spec fn wf(self) -> bool {
        &&& (self.is_held() ==> self.ticket != self.release)
        &&& self.interrupt_depth == if self.disables_interrupts {
            self.outstanding()
        } else {
            0
        }
    }

    /// `t` was handed out by this lock and has not been granted yet.
    pub open spec fn is_waiting(self, t: Ticket) -> bool {
        &&& dist(self.release, t.number()) < self.outstanding()
        &&& !(self.is_held() && t.number() == self.release)
    }

    /// `g` is the guard of the current holder.
    pub open spec fn holds(self, g: LockCellGuard) -> bool {
        &&& self.is_held()
        &&& self.owner == g.core_id()
        &&& g.ticket() == self.release
    }

    /// The state after a ticket has been drawn for a blocking acquisition.
    pub open spec fn after_draw(self) -> CellView<T> {
        CellView {
            ticket: wrap_inc(self.ticket),
            interrupt_depth: self.interrupt_depth + self.interrupt_step(),
            ..self
        }
    }

    pub open spec fn with_owner(self, owner: u32) -> CellView<T> {
        CellView { owner, ..self }
    }

    pub open spec fn with_value(self, value: T) -> CellView<T> {
        CellView { value, ..self }
    }

    /// One poll of the waiting ticket `t`: granted when its turn has come,
    /// fatal when the same core already holds the lock, and still queued
    /// otherwise.
    pub open spec fn poll_step(self, t: Ticket, post: CellView<T>, r: Result<Acquire, LockFault>) -> bool {
        if self.release == t.number() {
            &&& post == self.with_owner(t.core_id())
            &&& r matches Ok(Acquire::Granted(g))
            &&& g.ticket() == t.number()
            &&& g.core_id() == t.core_id()
        } else if self.owner == t.core_id() {
            post == self && r == Err::<Acquire, LockFault>(LockFault::Deadlock)
        } else {
            post == self && r == Ok::<Acquire, LockFault>(Acquire::Queued(t))
        }
    }

    /// One acquisition step of the core described by `ctx`: a blocking one
    /// draws a ticket and polls it once; a try-acquisition succeeds only if
    /// no ticket is outstanding, and leaves the lock unchanged otherwise.
    pub open spec fn acquire_step(
        self,
        ctx: Context,
        try_lock: bool,
        post: CellView<T>,
        r: Result<Acquire, LockFault>,
    ) -> bool {
        match context_verdict(self.disables_interrupts, try_lock, ctx) {
            Err(e) => post == self && r == Err::<Acquire, LockFault>(e),
            Ok(_) => if try_lock {
                if self.ticket == self.release {
                    &&& post == self.after_draw().with_owner(ctx.core_id)
                    &&& r matches Ok(Acquire::Granted(g))
                    &&& g.ticket() == self.ticket
                    &&& g.core_id() == ctx.core_id
                } else {
                    post == self && r == Ok::<Acquire, LockFault>(Acquire::Busy)
                }
            } else {
                let drawn = self.after_draw();
                if self.release == self.ticket {
                    &&& post == drawn.with_owner(ctx.core_id)
                    &&& r matches Ok(Acquire::Granted(g))
                    &&& g.ticket() == self.ticket
                    &&& g.core_id() == ctx.core_id
                } else if self.owner == ctx.core_id {
                    post == drawn && r == Err::<Acquire, LockFault>(LockFault::Deadlock)
                } else {
                    &&& post == drawn
                    &&& r matches Ok(Acquire::Queued(t))
                    &&& t.number() == self.ticket
                    &&& t.core_id() == ctx.core_id
                }
            },
        }
    }

    /// The release of the lock by its holder.
    pub open spec fn unlock_step(self, post: CellView<T>) -> bool {
        post == CellView {
            owner: NO_OWNER,
            release: wrap_inc(self.release),
            interrupt_depth: (self.interrupt_depth - self.interrupt_step()) as nat,
            ..self
        }
    }
}

/// Checks what the running core reports against the lock's interrupt policy.
pub fn check_context(disables_interrupts: bool, try_lock: bool, ctx: Context) -> (r: Result<
    (),
    LockFault,
>)
    ensures
        r == context_verdict(disables_interrupts, try_lock, ctx),
{
    if !disables_interrupts && ctx.in_interrupt {
        Err(LockFault::InterruptContext)
    } else if !try_lock && ctx.in_exception {
        Err(LockFault::ExceptionContext)
    } else {
        Ok(())
    }
}

/// A value guarded by a fair ticket spinlock. `I` tells the lock which core
/// runs it and in what context, and disables interrupts for it.
pub struct LockCell<T, I: InterruptState> {
    /// The next ticket to be handed out.
    ticket: u32,
    /// The ticket whose turn it is.
    release: u32,
    /// The core that holds the lock, or `NO_OWNER`.
    owner: u32,
    _interrupt_state: PhantomData<I>,
    /// Whether interrupts must stay disabled while the lock is held.
    disables_interrupts: bool,
    /// The guarded value.
    val: T,
    /// How many `enter_lock` calls this lock has made and not yet undone.
    interrupt_depth: Ghost<nat>,
}

impl<T, I: InterruptState> View for LockCell<T, I> {
    type V = CellView<T>;

    closed spec fn view(&self) -> CellView<T> {
        CellView {
            ticket: self.ticket,
            release: self.release,
            owner: self.owner,
            disables_interrupts: self.disables_interrupts,
            value: self.val,
            interrupt_depth: self.interrupt_depth@,
        }
    }
}

impl<T, I: InterruptState> LockCell<T, I> {
    pub open spec fn wf(&self) -> bool {
        self@.wf()
    }

    /// A free lock around `val` whose critical sections may be interrupted.
    pub fn new(val: T) -> (r: Self)
        ensures
            r.wf(),
            r@ == (CellView {
                ticket: 0,
                release: 0,
                owner: NO_OWNER,
                disables_interrupts: false,
                value: val,
                interrupt_depth: 0,
            }),
    {
        LockCell {
            ticket: 0,
            release: 0,
            owner: NO_OWNER,
            _interrupt_state: PhantomData,
            disables_interrupts: false,
            val,
            interrupt_depth: Ghost(0),
        }
    }

    /// A free lock around `val` that keeps interrupts disabled for as long as
    /// it is held or awaited.
    pub fn new_no_preempt(val: T) -> (r: Self)
        ensures
            r.wf(),
            r@ == (CellView {
                ticket: 0,
                release: 0,
                owner: NO_OWNER,
                disables_interrupts: true,
                value: val,
                interrupt_depth: 0,
            }),
    {
        LockCell {
            ticket: 0,
            release: 0,
            owner: NO_OWNER,
            _interrupt_state: PhantomData,
            disables_interrupts: true,
            val,
            interrupt_depth: Ghost(0),
        }
    }

    /// One poll of a waiting ticket: the step that a blocking acquisition
    /// repeats while it spins.
    pub fn poll(&mut self, ticket: Ticket) -> (r: Result<Acquire, LockFault>)
        requires
            old(self).wf(),
            old(self)@.is_waiting(ticket),
        ensures
            final(self).wf(),
            old(self)@.poll_step(ticket, final(self)@, r),
    {
        if self.release == ticket.number {
            self.owner = ticket.core_id;
            Ok(Acquire::Granted(LockCellGuard { ticket: ticket.number, core_id: ticket.core_id }))
        } else if self.owner == ticket.core_id {
            Err(LockFault::Deadlock)
        } else {
            Ok(Acquire::Queued(ticket))
        }
    }

    /// One acquisition step for the core that `ctx` describes. A blocking
    /// step draws a ticket and polls it once; a try step makes a single
    /// attempt, which succeeds only when no ticket is outstanding.
    pub fn acquire_in(&mut self, ctx: Context, try_lock: bool) -> (r: Result<Acquire, LockFault>)
        requires
            old(self).wf(),
            ctx.core_id != NO_OWNER,
            try_lock || old(self)@.outstanding() < 0xffff_ffff,
        ensures
            final(self).wf(),
            old(self)@.acquire_step(ctx, try_lock, final(self)@, r),
    {
        if let Err(e) = check_context(self.disables_interrupts, try_lock, ctx) {
            return Err(e);
        }
        if self.disables_interrupts {
            I::enter_lock();
            self.interrupt_depth = Ghost(self.interrupt_depth@ + 1);
        }
        if try_lock {
            let current_release = self.release;
            if self.ticket != current_release {
                if self.disables_interrupts {
                    I::exit_lock();
                    self.interrupt_depth = Ghost((self.interrupt_depth@ - 1) as nat);
                }
                return Ok(Acquire::Busy);
            }
            self.ticket = current_release.wrapping_add(1);
            self.owner = ctx.core_id;
            Ok(Acquire::Granted(LockCellGuard { ticket: current_release, core_id: ctx.core_id }))
        } else {
            let number = self.ticket;
            self.ticket = number.wrapping_add(1);
            self.poll(Ticket { number, core_id: ctx.core_id })
        }
    }
    /// One acquisition step for the running core, as `I` describes it. A
    /// blocking step that is not granted at once hands back its ticket, to be
    /// polled with `poll` until its turn comes; a fault is fatal.
    fn lock_int(&mut self, try_lock: bool) -> (r: Result<Acquire, LockFault>)
        requires
            old(self).wf(),
            try_lock || old(self)@.outstanding() < 0xffff_ffff,
        ensures
            final(self).wf(),
            exists|ctx: Context|
                ctx.core_id != NO_OWNER && #[trigger] old(self)@.acquire_step(
                    ctx,
                    try_lock,
                    final(self)@,
                    r,
                ),
    {
        let ctx = Context {
            in_interrupt: I::in_interrupt(),
            in_exception: I::in_exception(),
            core_id: I::core_id(),
        };
        let ghost pre = self@;
        let r = self.acquire_in(ctx, try_lock);
        assert(pre.acquire_step(ctx, try_lock, self@, r));
        r
    }

    /// A blocking acquisition by the running core: granted at once when no
    /// ticket is outstanding, queued behind the outstanding ones otherwise.
    pub fn lock(&mut self) -> (r: Result<Acquire, LockFault>)
        requires
            old(self).wf(),
            old(self)@.outstanding() < 0xffff_ffff,
        ensures
            final(self).wf(),
            !(r is Ok && r->Ok_0 is Busy),
            r matches Ok(Acquire::Granted(g)) ==> {
                &&& old(self)@.ticket == old(self)@.release
                &&& final(self)@.holds(g)
                &&& final(self)@ == old(self)@.after_draw().with_owner(g.core_id())
            },
            r matches Ok(Acquire::Queued(t)) ==> {
                &&& t.number() == old(self)@.ticket
                &&& final(self)@ == old(self)@.after_draw()
                &&& final(self)@.is_waiting(t)
            },
            old(self)@.is_held() ==> !(r matches Ok(Acquire::Granted(_))),
            r is Err ==> r == Err::<Acquire, LockFault>(LockFault::Deadlock) || final(self)@
                == old(self)@,
            exists|ctx: Context|
                ctx.core_id != NO_OWNER && #[trigger] old(self)@.acquire_step(
                    ctx,
                    false,
                    final(self)@,
                    r,
                ),
    {
        self.lock_int(false)
    }

    /// A single attempt at the lock by the running core, which never waits:
    /// `Ok(None)` when another acquisition holds or awaits the lock, which is
    /// then left as it was. The only fault is a lock that leaves interrupts
    /// enabled being tried inside an interrupt.
    pub fn try_lock(&mut self) -> (r: Result<Option<LockCellGuard>, LockFault>)
        requires
            old(self).wf(),
        ensures
            final(self).wf(),
            exists|ctx: Context|
                ctx.core_id != NO_OWNER && #[trigger] old(self)@.acquire_step(
                    ctx,
                    true,
                    final(self)@,
                    try_outcome(r),
                ),
            r matches Ok(None) <==> (r is Ok && old(self)@.ticket != old(self)@.release),
            r matches Ok(None) ==> final(self)@ == old(self)@,
            r matches Ok(Some(g)) ==> {
                &&& old(self)@.ticket == old(self)@.release
                &&& final(self)@.holds(g)
                &&& final(self)@ == old(self)@.after_draw().with_owner(g.core_id())
            },
            r is Err ==> {
                &&& !old(self)@.disables_interrupts
                &&& r == Err::<Option<LockCellGuard>, LockFault>(LockFault::InterruptContext)
                &&& final(self)@ == old(self)@
            },
            old(self)@.disables_interrupts ==> r is Ok,
    {
        let r = self.lock_int(true);
        let ghost step_result = r;
        let out = match r {
            Ok(Acquire::Granted(g)) => Ok(Some(g)),
            Ok(_) => Ok(None),
            Err(e) => Err(e),
        };
        assert(try_outcome(out) == step_result);
        out
    }

    /// Releases the lock held through `guard`, which ends: the next ticket's
    /// turn comes, and interrupts are re-enabled as far as this lock disabled
    /// them.
    pub fn unlock(&mut self, guard: LockCellGuard)
        requires
            old(self).wf(),
            old(self)@.holds(guard),
        ensures
            final(self).wf(),
            old(self)@.unlock_step(final(self)@),
    {
        let ghost pre = self@;
        self.owner = NO_OWNER;
        self.release = self.release.wrapping_add(1);
        assert(dist(self.release, self.ticket) + 1 == pre.outstanding());
        if self.disables_interrupts {
            I::exit_lock();
            self.interrupt_depth = Ghost((self.interrupt_depth@ - 1) as nat);
        }
    }

    /// The guarded value, read through the holder's guard.
    pub fn get(&self, guard: &LockCellGuard) -> (r: &T)
        requires
            self@.holds(*guard),
        ensures
            *r == self@.value,
    {
        &self.val
    }

    /// The guarded value, written through the holder's guard.
    pub fn get_mut(&mut self, guard: &LockCellGuard) -> (r: &mut T)
        requires
            old(self)@.holds(*guard),
        ensures
            *r == old(self)@.value,
            final(self)@ == old(self)@.with_value(*final(r)),
    {
        &mut self.val
    }

    /// The guarded value, whatever the state of the lock: an escape hatch for
    /// paths that cannot follow the protocol, such as fatal error reports.
    pub fn shatter(&mut self) -> (r: &mut T)
        ensures
            *r == old(self)@.value,
            final(self)@ == old(self)@.with_value(*final(r)),
    {
        &mut self.val
    }

    /// Whether interrupts stay disabled while this lock is held.
    pub fn disables_interrupts(&self) -> (r: bool)
        ensures
            r == self@.disables_interrupts,
    {
        self.disables_interrupts
    }

    /// How many tickets are outstanding: the holder's, if any, and those of
    /// the waiting acquisitions.
    pub fn outstanding(&self) -> (r: u32)
        ensures
            r == self@.outstanding(),
    {
        self.ticket.wrapping_sub(self.release)
    }

    /// Whether some core holds the lock.
    pub fn is_locked(&self) -> (r: bool)
        ensures
            r == self@.is_held(),
    {
        self.owner != NO_OWNER
    }
}

} // verus!
