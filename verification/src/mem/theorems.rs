//! What holds of every manager state, whatever was done to reach it.

use crate::mem::bump::MAX_SUPPORTED_ALIGN;
use crate::mem::context::{AllocationContext, CONTEXT_CAPACITY};
use crate::mem::manager::{ManagerState, Placement};
use crate::mem::trace::lemma_reserve_step;
use vstd::arithmetic::power2::is_pow2;
use vstd::prelude::*;

verus! {

/// Making a context active and taking it off again gives back the state as
/// it was: the same contexts, the same active one, the same counters.
pub proof fn theorem_push_then_pop_restores(state: ManagerState, ctx: AllocationContext)
    ensures
        state.push(ctx).current() == ctx,
        state.push(ctx).pop() == state,
        state.push(ctx).pop().current() == state.current(),
{
    assert(state.push(ctx).pop().contexts =~= state.contexts);
}

/// Two nested activations: the inner context governs first, the outer one
/// after the inner is taken off, and after both the state is as it was.
pub proof fn theorem_nested_activations_restore(
    state: ManagerState,
    outer: AllocationContext,
    inner: AllocationContext,
)
    ensures
        state.push(outer).push(inner).current() == inner,
        state.push(outer).push(inner).pop() == state.push(outer),
        state.push(outer).push(inner).pop().current() == outer,
        state.push(outer).push(inner).pop().pop() == state,
{
    theorem_push_then_pop_restores(state.push(outer), inner);
    theorem_push_then_pop_restores(state, outer);
}

/// Requests and the platform's answers leave the contexts alone, so an
/// activation still ends in the context that it began in.
pub proof fn theorem_requests_keep_contexts(state: ManagerState, size: nat, align: nat, served: bool)
    ensures
        state.allocate(size, align).contexts == state.contexts,
        state.system_served(size, served).contexts == state.contexts,
{
}

/// A bump allocator refuses every request for an alignment above
/// `MAX_SUPPORTED_ALIGN`, whatever its size, and the state stays as it is.
pub proof fn theorem_unsupported_alignment_refused(state: ManagerState, size: nat, align: nat)
    requires
        state.current() != AllocationContext::System,
        align > MAX_SUPPORTED_ALIGN,
    ensures
        state.placement(size, align) == Placement::Refused,
        state.allocate(size, align) == state,
{
}

/// A bump allocator refuses every request for more bytes than it has left,
/// and keeps all of them: nothing is reserved in part.
pub proof fn theorem_oversized_request_refused(state: ManagerState, size: nat, align: nat)
    requires
        state.current() == AllocationContext::Arena && size > state.arena_remaining
            || state.current() == AllocationContext::Pool && size > state.pool_remaining,
    ensures
        state.placement(size, align) == Placement::Refused,
        state.allocate(size, align) == state,
{
}

/// A request changes at most the cursor of the active bump allocator, and
/// only downwards; a refused one and one for the platform change nothing.
pub proof fn theorem_request_moves_one_cursor_down(state: ManagerState, size: nat, align: nat)
    requires
        is_pow2(align as int),
    ensures
        state.allocate(size, align).arena_remaining <= state.arena_remaining,
        state.allocate(size, align).pool_remaining <= state.pool_remaining,
        state.allocate(size, align).system_allocated == state.system_allocated,
        state.current() != AllocationContext::Arena ==> state.allocate(size, align).arena_remaining
            == state.arena_remaining,
        state.current() != AllocationContext::Pool ==> state.allocate(size, align).pool_remaining
            == state.pool_remaining,
        state.placement(size, align) == Placement::Refused || state.placement(size, align)
            == Placement::System ==> state.allocate(size, align) == state,
{
    lemma_reserve_step(state.arena_remaining, size, align);
    lemma_reserve_step(state.pool_remaining, size, align);
}

/// A block from the arena or the pool is aligned as asked and lies inside
/// what its allocator had left.
pub proof fn theorem_block_within_remaining(state: ManagerState, size: nat, align: nat)
    requires
        state.wf(),
        is_pow2(align as int),
    ensures
        state.placement(size, align) matches Placement::Arena(offset) ==> offset as nat % align == 0
            && offset + size <= state.arena_remaining,
        state.placement(size, align) matches Placement::Pool(offset) ==> offset as nat % align == 0
            && offset + size <= state.pool_remaining,
{
    lemma_reserve_step(state.arena_remaining, size, align);
    lemma_reserve_step(state.pool_remaining, size, align);
}

/// The snapshot reads the counters and nothing else: as long as no request
/// is served, it stays the same.
pub proof fn theorem_snapshot_stable(state: ManagerState, ctx: AllocationContext, size: nat, align: nat)
    ensures
        state.push(ctx).info() == state.info(),
        state.pop().info() == state.info(),
        state.system_served(size, false).info() == state.info(),
        state.placement(size, align) == Placement::Refused || state.placement(size, align)
            == Placement::System ==> state.allocate(size, align).info() == state.info(),
{
}

/// Every step leads from a state that a manager can be in to another one.
pub proof fn theorem_steps_keep_wf(
    state: ManagerState,
    ctx: AllocationContext,
    size: nat,
    align: nat,
    served: bool,
)
    requires
        state.wf(),
        is_pow2(align as int),
        size <= usize::MAX,
    ensures
        ManagerState::initial().wf(),
        state.contexts.len() < CONTEXT_CAPACITY ==> state.push(ctx).wf(),
        state.contexts.len() > 1 ==> state.pop().wf(),
        state.allocate(size, align).wf(),
        state.system_served(size, served).wf(),
{
    theorem_request_moves_one_cursor_down(state, size, align);
}

} // verus!
