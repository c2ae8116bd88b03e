use vstd::prelude::*;

verus! {

/// The value of `owner` that says that no core holds the lock.
pub const NO_OWNER: u32 = 0xffff_ffff;

/// Access to the OS-level constructs that describe interrupt state, exception
/// state and unique core IDs, and to the enter/exit lock primitives that
/// disable and re-enable interrupts.
pub trait InterruptState {
    /// Returns `true` if the running core is currently in an interrupt.
    fn in_interrupt() -> bool;

    /// Returns `true` if the running core is currently in an exception, in
    /// which case it may have pre-empted a non-preemptable lock.
    fn in_exception() -> bool;

    /// The ID of the running core: unique to the core, and never `NO_OWNER`.
    fn core_id() -> (r: u32)
        ensures
            r != NO_OWNER,
    ;

    /// A lock that does not allow interrupting was taken: interrupts must be
    /// disabled. The implementation handles nesting (for instance with a
    /// count of outstanding disable requests).
    fn enter_lock();

    /// A lock that does not allow interrupting was released: interrupts may
    /// be enabled again once every nested request has been released.
    fn exit_lock();
}

/// What the running core reports about itself when it asks for a lock.
#[derive(Clone, Copy, Debug, PartialEq, Eq, Structural)]
pub struct Context {
    pub in_interrupt: bool,
    pub in_exception: bool,
    pub core_id: u32,
}

} // verus!
