//! The manager: one context stack and three backends. Each request goes to
//! the backend that the top of the stack names.

use crate::mem::bump::{reserve_spec, BumpAllocator, BUMP_CAPACITY};
use crate::mem::context::{AllocationContext, ContextStack, CONTEXT_CAPACITY};
use crate::mem::system::{counter_add, SystemAllocator};
use vstd::arithmetic::power2::is_pow2;
use vstd::prelude::*;

verus! {

/// Where a request was placed.
#[derive(Copy, Clone, Debug, PartialEq, Eq, Structural)]
pub enum Placement {
    /// The request is the platform allocator's to serve. The caller asks it,
    /// and reports the outcome with [`AllocatorManager::system_served`].
    System,
    /// A block at this offset in the arena's buffer.
    Arena(usize),
    /// A block at this offset in the pool's buffer.
    Pool(usize),
    /// The active bump allocator refused the request. No other backend is
    /// tried.
    Refused,
}

/// The byte counters of the three backends at one moment.
#[derive(Copy, Clone, Debug, PartialEq, Eq, Structural)]
pub struct AllocationInfo {
    pub system_allocated: usize,
    pub arena_allocated: usize,
    pub arena_remaining: usize,
    pub pool_allocated: usize,
    pub pool_remaining: usize,
}

impl AllocationInfo {
    /// The snapshot that three counters stand for: what a bump allocator has
    /// handed out is its capacity less what it has left.
    pub open spec fn of(system_allocated: nat, arena_remaining: nat, pool_remaining: nat) -> Self {
        AllocationInfo {
            system_allocated: system_allocated as usize,
            arena_allocated: (BUMP_CAPACITY - arena_remaining) as usize,
            arena_remaining: arena_remaining as usize,
            pool_allocated: (BUMP_CAPACITY - pool_remaining) as usize,
            pool_remaining: pool_remaining as usize,
        }
    }

    /// Builds the snapshot from the three counters.
    pub fn from_counters(
        system_allocated: usize,
        arena_remaining: usize,
        pool_remaining: usize,
    ) -> (info: Self)
        requires
            arena_remaining <= BUMP_CAPACITY,
            pool_remaining <= BUMP_CAPACITY,
        ensures
            info == Self::of(system_allocated as nat, arena_remaining as nat, pool_remaining as nat),
            info.arena_allocated + info.arena_remaining == BUMP_CAPACITY,
            info.pool_allocated + info.pool_remaining == BUMP_CAPACITY,
    {
        AllocationInfo {
            system_allocated,
            arena_allocated: BUMP_CAPACITY - arena_remaining,
            arena_remaining,
            pool_allocated: BUMP_CAPACITY - pool_remaining,
            pool_remaining,
        }
    }
}

/// The state of a manager as plain mathematics: the active contexts, bottom
/// first, and the counter of each backend.
pub struct ManagerState {
    pub contexts: Seq<AllocationContext>,
    pub system_allocated: nat,
    pub arena_remaining: nat,
    pub pool_remaining: nat,
}

impl ManagerState {
    /// What holds of every state that a manager can be in.
    pub open spec fn wf(self) -> bool {
        &&& 1 <= self.contexts.len() <= CONTEXT_CAPACITY
        &&& self.system_allocated <= usize::MAX
        &&& self.arena_remaining <= BUMP_CAPACITY
        &&& self.pool_remaining <= BUMP_CAPACITY
    }

    /// The state at start: `System` alone is active and nothing was handed
    /// out.
    pub open spec fn initial() -> Self {
        ManagerState {
            contexts: seq![AllocationContext::System],
            system_allocated: 0,
            arena_remaining: BUMP_CAPACITY as nat,
            pool_remaining: BUMP_CAPACITY as nat,
        }
    }

    /// The active context.
    pub open spec fn current(self) -> AllocationContext {
        self.contexts.last()
    }

    /// The state with `ctx` made active above the others.
    pub open spec fn push(self, ctx: AllocationContext) -> Self {
        ManagerState { contexts: self.contexts.push(ctx), ..self }
    }

    /// The state with the active context taken off.
    pub open spec fn pop(self) -> Self {
        ManagerState { contexts: self.contexts.drop_last(), ..self }
    }

    /// Where a request of `size` bytes aligned to `align` is placed.
    pub open spec fn placement(self, size: nat, align: nat) -> Placement {
        match self.current() {
            AllocationContext::System => Placement::System,
            AllocationContext::Arena => match reserve_spec(self.arena_remaining, size, align) {
                Some(offset) => Placement::Arena(offset as usize),
                None => Placement::Refused,
            },
            AllocationContext::Pool => match reserve_spec(self.pool_remaining, size, align) {
                Some(offset) => Placement::Pool(offset as usize),
                None => Placement::Refused,
            },
        }
    }

    /// The state after a request of `size` bytes aligned to `align`: the
    /// cursor of the active bump allocator has moved if it served the
    /// request, and nothing else has changed.
    pub open spec fn allocate(self, size: nat, align: nat) -> Self {
        match self.placement(size, align) {
            Placement::Arena(offset) => ManagerState { arena_remaining: offset as nat, ..self },
            Placement::Pool(offset) => ManagerState { pool_remaining: offset as nat, ..self },
            _ => self,
        }
    }

    /// The state after the platform answered a request of `size` bytes.
    pub open spec fn system_served(self, size: nat, served: bool) -> Self {
        if served {
            ManagerState { system_allocated: counter_add(self.system_allocated, size), ..self }
        } else {
            self
        }
    }

    /// The snapshot of the counters.
    pub open spec fn info(self) -> AllocationInfo {
        AllocationInfo::of(self.system_allocated, self.arena_remaining, self.pool_remaining)
    }
}

/// The allocator that stands in front of the three backends.
#[derive(Debug)]
pub struct AllocatorManager {
    ctx: ContextStack,
    system: SystemAllocator,
    arena: BumpAllocator,
    pool: BumpAllocator,
}

impl View for AllocatorManager {
    type V = ManagerState;

    closed spec fn view(&self) -> ManagerState {
        ManagerState {
            contexts: self.ctx@,
            system_allocated: self.system@,
            arena_remaining: self.arena@,
            pool_remaining: self.pool@,
        }
    }
}

impl AllocatorManager {
    #[verifier::type_invariant]
    spec fn state_wf(self) -> bool {
        self@.wf()
    }

    /// A manager in its initial state.
    pub fn new() -> (manager: Self)
        ensures
            manager@ == ManagerState::initial(),
            manager@.wf(),
    {
        AllocatorManager {
            ctx: ContextStack::new(),
            system: SystemAllocator::new(),
            arena: BumpAllocator::new(),
            pool: BumpAllocator::new(),
        }
    }

    /// The active context.
    pub fn current(&self) -> (ctx: AllocationContext)
        ensures
            ctx == self@.current(),
            self@.wf(),
    {
        proof {
            use_type_invariant(self);
        }
        self.ctx.current()
    }

    /// Number of active contexts.
    pub fn depth(&self) -> (depth: usize)
        ensures
            depth == self@.contexts.len(),
            self@.wf(),
    {
        proof {
            use_type_invariant(self);
        }
        self.ctx.depth()
    }

    /// Makes `ctx` the active context, above the one that was.
    pub fn push_allocator(&mut self, ctx: AllocationContext)
        requires
            old(self)@.contexts.len() < CONTEXT_CAPACITY,
        ensures
            final(self)@ == old(self)@.push(ctx),
            final(self)@.wf(),
    {
        proof {
            use_type_invariant(&*self);
        }
        self.ctx.push(ctx);
    }

    /// Takes the active context off: the one below is active again.
    pub fn pop_allocator(&mut self)
        requires
            old(self)@.contexts.len() > 1,
        ensures
            final(self)@ == old(self)@.pop(),
            final(self)@.wf(),
    {
        proof {
            use_type_invariant(&*self);
        }
        self.ctx.pop();
    }

    /// Hands a request of `size` bytes aligned to `align` to the backend that
    /// the active context names, and returns what that backend decided.
    ///
    /// Under `Arena` and `Pool` the block is reserved here. Under `System`
    /// nothing changes yet: the platform is the caller's to ask.
    pub fn allocate(&mut self, size: usize, align: usize) -> (placement: Placement)
        requires
            is_pow2(align as int),
        ensures
            placement == old(self)@.placement(size as nat, align as nat),
            final(self)@ == old(self)@.allocate(size as nat, align as nat),
            final(self)@.wf(),
    {
        proof {
            use_type_invariant(&*self);
        }
        match self.ctx.current() {
            AllocationContext::Arena => match self.arena.allocate(size, align) {
                Some(offset) => Placement::Arena(offset),
                None => Placement::Refused,
            },
            AllocationContext::Pool => match self.pool.allocate(size, align) {
                Some(offset) => Placement::Pool(offset),
                None => Placement::Refused,
            },
            AllocationContext::System => Placement::System,
        }
    }

    /// Records the platform's answer to a request of `size` bytes that
    /// [`allocate`](Self::allocate) placed with it.
    pub fn system_served(&mut self, size: usize, served: bool)
        ensures
            final(self)@ == old(self)@.system_served(size as nat, served),
            final(self)@.wf(),
    {
        proof {
            use_type_invariant(&*self);
        }
        self.system.record_allocation(size, served);
    }

    /// Takes a block back. Nothing is released, whichever backend the block
    /// came from: the state stays as it is.
    pub fn deallocate(&mut self, _placement: Placement, _size: usize)
        ensures
            final(self)@ == old(self)@,
    {
    }

    /// The snapshot of the byte counters.
    pub fn info(&self) -> (info: AllocationInfo)
        ensures
            info == self@.info(),
            self@.wf(),
    {
        proof {
            use_type_invariant(self);
        }
        AllocationInfo::from_counters(
            self.system.allocated(),
            self.arena.remaining(),
            self.pool.remaining(),
        )
    }
}

} // verus!
