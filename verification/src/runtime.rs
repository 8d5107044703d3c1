//! The runtime guard: exactly one process-wide concurrent scheduler,
//! and each host thread attached to it at most once.
//!
//! Before any asynchronous operation, a host thread asks the guard
//! what must still be done: construct the scheduler (first call in
//! the process only) and attach the calling thread (first call on
//! that thread only). Repeated calls are no-ops.

use vstd::prelude::*;

verus! {

/// The process-wide scheduler slot.
pub struct RuntimeGuard {
    created: bool,
}

/// One host thread's attachment to the scheduler. Owned by the
/// thread; its lifetime is the thread's lifetime.
pub struct ThreadAttachment {
    attached: bool,
}

/// What a call to the guard tells its caller to do.
#[derive(Clone, Copy, Debug, PartialEq, Eq, Structural)]
pub struct EnterPlan {
    /// Construct the scheduler — true on the first call in the
    /// process only.
    pub create_runtime: bool,
    /// Attach the calling thread — true on the thread's first call
    /// only.
    pub attach_thread: bool,
}

/// The work still owed for a given guard and thread state.
pub open spec fn enter_plan_of(created: bool, attached: bool) -> EnterPlan {
    EnterPlan { create_runtime: !created, attach_thread: !attached }
}

impl RuntimeGuard {
    /// Whether the scheduler has been constructed.
    pub closed spec fn is_created(&self) -> bool {
        self.created
    }

    /// No scheduler yet.
    pub fn new() -> (r: Self)
        ensures
            !r.is_created(),
    {
        RuntimeGuard { created: false }
    }

    /// Ensures the calling thread can run asynchronous operations:
    /// returns what must still be constructed or attached, and records
    /// that after this call both exist. Idempotent per thread: a
    /// second call returns an empty plan.
    pub fn init_runtime(&mut self, thread: &mut ThreadAttachment) -> (plan: EnterPlan)
        ensures
            final(self).is_created(),
            final(thread).is_attached(),
            plan == enter_plan_of(old(self).is_created(), old(thread).is_attached()),
    {
        let plan = EnterPlan { create_runtime: !self.created, attach_thread: !thread.attached };
        self.created = true;
        thread.attached = true;
        plan
    }
}

impl ThreadAttachment {
    /// Whether this thread is attached to the scheduler.
    pub closed spec fn is_attached(&self) -> bool {
        self.attached
    }

    /// Not attached yet.
    pub fn new() -> (r: Self)
        ensures
            !r.is_attached(),
    {
        ThreadAttachment { attached: false }
    }
}

/// Idempotence: once the scheduler exists and the thread is attached,
/// every further call is a no-op — nothing is constructed or attached
/// twice.
pub proof fn lemma_enter_idempotent()
    ensures
        enter_plan_of(true, true) == (EnterPlan { create_runtime: false, attach_thread: false }),
{
}

} // verus!
