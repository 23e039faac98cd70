//! The allocation strategies and the stack that records which one is active.

use vstd::prelude::*;

verus! {

/// Number of slots in a [`ContextStack`].
pub const CONTEXT_CAPACITY: usize = 1024;

/// The allocation strategy that serves a request.
#[derive(Copy, Clone, Debug, PartialEq, Eq, Structural)]
pub enum AllocationContext {
    Arena,
    Pool,
    System,
}

/// A fixed-capacity stack of allocation contexts. The entry on top is the
/// active one; the bottom entry is always present.
///
/// The view is the sequence of active entries, bottom first. Slots above the
/// top keep whatever was last written to them and are not part of the view.
#[derive(Debug)]
pub struct ContextStack {
    slots: [AllocationContext; 1024],
    top: usize,
}

impl View for ContextStack {
    type V = Seq<AllocationContext>;

    closed spec fn view(&self) -> Seq<AllocationContext> {
        self.slots@.subrange(0, self.top + 1)
    }
}

impl ContextStack {
    #[verifier::type_invariant]
    spec fn top_in_bounds(self) -> bool {
        self.top < CONTEXT_CAPACITY
    }

    /// A stack that holds the single entry `System`.
    pub fn new() -> (stack: Self)
        ensures
            stack@ == seq![AllocationContext::System],
    {
        let stack = ContextStack { slots: [AllocationContext::System; 1024], top: 0 };
        assert(stack@ =~= seq![AllocationContext::System]);
        stack
    }

    /// Number of active entries.
    pub fn depth(&self) -> (depth: usize)
        ensures
            depth == self@.len(),
            1 <= depth <= CONTEXT_CAPACITY,
    {
        proof {
            use_type_invariant(self);
        }
        self.top + 1
    }

    /// The active context: the entry on top.
    pub fn current(&self) -> (ctx: AllocationContext)
        ensures
            ctx == self@.last(),
    {
        proof {
            use_type_invariant(self);
        }
        self.slots[self.top]
    }

    /// Puts `ctx` above the current top and makes it the active context.
    pub fn push(&mut self, ctx: AllocationContext)
        requires
            old(self)@.len() < CONTEXT_CAPACITY,
        ensures
            final(self)@ == old(self)@.push(ctx),
        no_unwind
    {
        proof {
            use_type_invariant(&*self);
        }
        let slot: usize = self.top + 1;
        self.slots[slot] = ctx;
        self.top = slot;
        assert(self@ =~= old(self)@.push(ctx));
    }

    /// Retreats the top by one entry. The vacated slot is left as it is.
    pub fn pop(&mut self)
        requires
            old(self)@.len() > 1,
        ensures
            final(self)@ == old(self)@.drop_last(),
        no_unwind
    {
        proof {
            use_type_invariant(&*self);
        }
        self.top = self.top - 1;
        assert(self@ =~= old(self)@.drop_last());
    }
}

} // verus!
