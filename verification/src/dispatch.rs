//! The thread-affine command queue. Native window state may only be touched
//! by the thread that owns the event loop; every other thread hands its
//! requests to this queue and returns at once. The owner drains the queue in
//! first-in first-out order, so work is executed exactly in submission order.

use vstd::prelude::*;
use crate::shell::ShellOp;

verus! {

/// The identity of a thread, as a plain value. The crate never inspects the
/// host's threading machinery itself: callers obtain an identifier at the
/// edge of the process and pass it in, and the dispatcher only ever compares
/// identifiers for equality.
#[derive(Clone, Copy, Debug, PartialEq, Eq, Structural)]
pub struct ThreadId(pub u64);

/// The queue of runtime requests bound for one window, together with the
/// identity of the only thread allowed to execute them.
///
/// Submission policy: work arriving on the owning thread runs inline, at
/// once; work arriving on any other thread is appended here and the caller
/// returns without waiting. Draining is exclusive to the owner and preserves
/// arrival order. Nothing is ever dropped, reordered or cancelled.
#[derive(Debug)]
pub struct Dispatcher {
    /// The thread that owns the window's native state.
    pub owner: ThreadId,
    /// Requests waiting to run on the owning thread, oldest first.
    pub pending: Vec<ShellOp>,
}

impl Dispatcher {
    /// An empty queue owned by the given thread.
    pub fn new(owner: ThreadId) -> (d: Dispatcher)
        ensures
            d.owner == owner,
            d.pending@ == Seq::<ShellOp>::empty(),
    {
        Dispatcher { owner, pending: Vec::new() }
    }

    /// Whether work submitted by `caller` runs inline rather than queueing:
    /// exactly when the caller is the owning thread.
    pub fn runs_inline(&self, caller: ThreadId) -> (b: bool)
        ensures
            b == (caller == self.owner),
    {
        caller.0 == self.owner.0
    }

    /// Appends one request to the back of the queue. Never blocks, never
    /// fails, never disturbs what is already queued.
    pub fn enqueue(&mut self, op: ShellOp)
        ensures
            final(self).owner == old(self).owner,
            final(self).pending@ == old(self).pending@.push(op),
    {
        self.pending.push(op);
    }

    /// Hands the whole queue, oldest first, to the owning thread and leaves
    /// the queue empty.
    pub fn take_pending(&mut self) -> (ops: Vec<ShellOp>)
        ensures
            final(self).owner == old(self).owner,
            final(self).pending@ == Seq::<ShellOp>::empty(),
            ops@ == old(self).pending@,
    {
        let mut taken: Vec<ShellOp> = Vec::new();
        core::mem::swap(&mut taken, &mut self.pending);
        taken
    }
}

} // verus!
