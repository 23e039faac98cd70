//! The scoped guard: it makes a context active when it is made, and hands the
//! stack back to the context below when it is released.

use crate::mem::context::{AllocationContext, CONTEXT_CAPACITY};
use crate::mem::manager::AllocatorManager;
use vstd::prelude::*;

verus! {

/// A guard for one activation of a context. Guards nest: the context of the
/// innermost guard that is not yet released is the active one.
pub struct Janitor;

impl Janitor {
    /// Makes `ctx` the active context of `manager` and returns the guard that
    /// stands for this activation.
    pub fn new(manager: &mut AllocatorManager, ctx: AllocationContext) -> (guard: Self)
        requires
            old(manager)@.contexts.len() < CONTEXT_CAPACITY,
        ensures
            final(manager)@ == old(manager)@.push(ctx),
            final(manager)@.current() == ctx,
            final(manager)@.wf(),
    {
        manager.push_allocator(ctx);
        Janitor
    }

    /// Ends the activation: the active context is taken off, once, and the
    /// one below governs again.
    pub fn release(self, manager: &mut AllocatorManager)
        requires
            old(manager)@.contexts.len() > 1,
        ensures
            final(manager)@ == old(manager)@.pop(),
            final(manager)@.wf(),
    {
        manager.pop_allocator();
    }
}

} // verus!
