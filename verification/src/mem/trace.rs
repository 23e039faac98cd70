//! What holds of every run of requests against one bump allocator: where the
//! blocks lie, that no two of them share a byte, and when all are served.

use crate::mem::align::{align_down, lemma_align_down, lemma_pow2_positive};
use crate::mem::bump::{reserve_spec, BUMP_CAPACITY, MAX_SUPPORTED_ALIGN};
use vstd::arithmetic::div_mod::{lemma_fundamental_div_mod, lemma_mod_multiples_basic};
use vstd::arithmetic::power2::is_pow2;
use vstd::prelude::*;

verus! {

/// One request: a size in bytes and an alignment.
pub struct Request {
    pub size: nat,
    pub align: nat,
}

/// Every alignment in `requests` is a power of two.
pub open spec fn aligned_to_powers_of_two(requests: Seq<Request>) -> bool {
    forall|k: int| 0 <= k < requests.len() ==> is_pow2(#[trigger] requests[k].align as int)
}

/// Every alignment in `requests` is one that a bump allocator serves.
pub open spec fn alignments_supported(requests: Seq<Request>) -> bool {
    forall|k: int| 0 <= k < requests.len() ==> #[trigger] requests[k].align <= MAX_SUPPORTED_ALIGN
}

/// The bytes left after `requests` were made in order of an allocator that
/// had `start` bytes left. A refused request leaves the cursor where it was.
pub open spec fn remaining_after(start: nat, requests: Seq<Request>) -> nat
    decreases requests.len(),
{
    if requests.len() == 0 {
        start
    } else {
        let before = remaining_after(start, requests.drop_last());
        match reserve_spec(before, requests.last().size, requests.last().align) {
            Some(next) => next,
            None => before,
        }
    }
}

/// The offset of the block that request `i` of the run got, or `None` if it
/// was refused.
pub open spec fn placed_at(start: nat, requests: Seq<Request>, i: int) -> Option<nat>
    recommends
        0 <= i < requests.len(),
{
    reserve_spec(remaining_after(start, requests.take(i)), requests[i].size, requests[i].align)
}

/// The most that `requests` can take from a buffer: each size, and for each
/// request the largest gap that rounding down to its alignment can leave.
pub open spec fn padded_total(requests: Seq<Request>) -> nat
    decreases requests.len(),
{
    if requests.len() == 0 {
        0
    } else {
        (padded_total(requests.drop_last()) + requests.last().size + requests.last().align - 1) as nat
    }
}

/// A served request gets a block that is aligned, ends at or below the old
/// cursor, and costs no more than its size and the largest gap.
pub proof fn lemma_reserve_step(remaining: nat, size: nat, align: nat)
    requires
        is_pow2(align as int),
    ensures
        reserve_spec(remaining, size, align) matches Some(offset) ==> {
            &&& offset % align == 0
            &&& offset + size <= remaining
            &&& remaining - offset <= size + align - 1
        },
        reserve_spec(remaining, size, align) is Some <==> align <= MAX_SUPPORTED_ALIGN && size
            <= remaining,
{
    lemma_pow2_positive(align as int);
    if size <= remaining {
        lemma_align_down((remaining - size) as nat, align);
    }
}

/// An address in a buffer that is aligned to `MAX_SUPPORTED_ALIGN` is
/// aligned as the request asked: every block that a bump allocator hands out
/// starts at a multiple of the alignment requested.
pub proof fn theorem_block_address_aligned(base: nat, remaining: nat, size: nat, align: nat)
    requires
        is_pow2(align as int),
        base % (MAX_SUPPORTED_ALIGN as nat) == 0,
        reserve_spec(remaining, size, align) is Some,
    ensures
        (base + reserve_spec(remaining, size, align)->Some_0) % align == 0,
{
    let offset = reserve_spec(remaining, size, align)->Some_0;
    lemma_reserve_step(remaining, size, align);
    lemma_pow2_positive(align as int);
    assert(is_pow2(MAX_SUPPORTED_ALIGN as int)) by {
        reveal_with_fuel(is_pow2, 14);
    }
    let per_max = lemma_pow2_divides(align as int, MAX_SUPPORTED_ALIGN as int);
    lemma_fundamental_div_mod(base as int, MAX_SUPPORTED_ALIGN as int);
    lemma_fundamental_div_mod(offset as int, align as int);
    let multiple: int = per_max * (base as int / MAX_SUPPORTED_ALIGN as int) + offset as int
        / align as int;
    assert(base + offset == multiple * align) by (nonlinear_arith)
        requires
            base == MAX_SUPPORTED_ALIGN * (base as int / MAX_SUPPORTED_ALIGN as int),
            offset == align * (offset as int / align as int),
            MAX_SUPPORTED_ALIGN == per_max * align,
            multiple == per_max * (base as int / MAX_SUPPORTED_ALIGN as int) + offset as int
                / align as int,
    ;
    lemma_mod_multiples_basic(multiple, align as int);
}

/// A power of two is a multiple of every power of two that is not larger.
proof fn lemma_pow2_divides(small: int, large: int) -> (times: int)
    requires
        is_pow2(small),
        is_pow2(large),
        small <= large,
    ensures
        large == times * small,
    decreases small,
{
    reveal(is_pow2);
    if small == 1 {
        large
    } else {
        let times = lemma_pow2_divides(small / 2, large / 2);
        assert(large == times * small) by (nonlinear_arith)
            requires
                large == 2 * (large / 2),
                small == 2 * (small / 2),
                large / 2 == times * (small / 2),
        ;
        times
    }
}

/// The cursor never moves up: after more requests, no more bytes are left.
pub proof fn lemma_remaining_never_grows(start: nat, requests: Seq<Request>, i: int, j: int)
    requires
        aligned_to_powers_of_two(requests),
        0 <= i <= j <= requests.len(),
    ensures
        remaining_after(start, requests.take(j)) <= remaining_after(start, requests.take(i)),
    decreases j - i,
{
    if i < j {
        lemma_remaining_never_grows(start, requests, i, j - 1);
        lemma_step_of_run(start, requests, j - 1);
    }
}

/// One request more moves the cursor as `reserve_spec` says.
proof fn lemma_step_of_run(start: nat, requests: Seq<Request>, i: int)
    requires
        aligned_to_powers_of_two(requests),
        0 <= i < requests.len(),
    ensures
        remaining_after(start, requests.take(i + 1)) == match placed_at(start, requests, i) {
            Some(offset) => offset,
            None => remaining_after(start, requests.take(i)),
        },
        remaining_after(start, requests.take(i + 1)) <= remaining_after(start, requests.take(i)),
        padded_total(requests.take(i + 1)) == padded_total(requests.take(i)) + requests[i].size
            + requests[i].align - 1,
{
    let longer = requests.take(i + 1);
    assert(longer.drop_last() =~= requests.take(i));
    assert(longer.last() == requests[i]);
    lemma_pow2_positive(requests[i].align as int);
    lemma_reserve_step(remaining_after(start, requests.take(i)), requests[i].size, requests[i].align);
}

/// Every block of a run lies inside what was left at its start, and so
/// inside the buffer.
pub proof fn theorem_block_inside_buffer(start: nat, requests: Seq<Request>, i: int)
    requires
        start <= BUMP_CAPACITY,
        aligned_to_powers_of_two(requests),
        0 <= i < requests.len(),
        placed_at(start, requests, i) is Some,
    ensures
        placed_at(start, requests, i)->Some_0 + requests[i].size <= start,
        placed_at(start, requests, i)->Some_0 + requests[i].size <= BUMP_CAPACITY,
        placed_at(start, requests, i)->Some_0 % requests[i].align == 0,
{
    assert(requests.take(0) =~= Seq::<Request>::empty());
    lemma_remaining_never_grows(start, requests, 0, i);
    lemma_reserve_step(remaining_after(start, requests.take(i)), requests[i].size, requests[i].align);
}

/// A block of a run lies below every block handed out before it: no two
/// blocks share a byte.
pub proof fn theorem_blocks_disjoint(start: nat, requests: Seq<Request>, i: int, j: int)
    requires
        aligned_to_powers_of_two(requests),
        0 <= i < j < requests.len(),
        placed_at(start, requests, i) is Some,
        placed_at(start, requests, j) is Some,
    ensures
        placed_at(start, requests, j)->Some_0 + requests[j].size <= placed_at(
            start,
            requests,
            i,
        )->Some_0,
{
    lemma_step_of_run(start, requests, i);
    lemma_remaining_never_grows(start, requests, i + 1, j);
    lemma_reserve_step(remaining_after(start, requests.take(j)), requests[j].size, requests[j].align);
}

/// What a run has taken from the buffer is at most its padded total.
proof fn lemma_run_takes_at_most_padded_total(start: nat, requests: Seq<Request>, k: int)
    requires
        aligned_to_powers_of_two(requests),
        0 <= k <= requests.len(),
    ensures
        start - remaining_after(start, requests.take(k)) <= padded_total(requests.take(k)),
        padded_total(requests.take(k)) <= padded_total(requests),
    decreases requests.len() - k,
{
    lemma_taken_so_far(start, requests, k);
    if k < requests.len() {
        lemma_run_takes_at_most_padded_total(start, requests, k + 1);
        lemma_step_of_run(start, requests, k);
        lemma_pow2_positive(requests[k].align as int);
    } else {
        assert(requests.take(k) =~= requests);
    }
}

/// The first `k` requests of a run have taken at most their padded total.
proof fn lemma_taken_so_far(start: nat, requests: Seq<Request>, k: int)
    requires
        aligned_to_powers_of_two(requests),
        0 <= k <= requests.len(),
    ensures
        start - remaining_after(start, requests.take(k)) <= padded_total(requests.take(k)),
    decreases k,
{
    if k == 0 {
        assert(requests.take(0) =~= Seq::<Request>::empty());
    } else {
        lemma_taken_so_far(start, requests, k - 1);
        lemma_step_of_run(start, requests, k - 1);
        lemma_reserve_step(
            remaining_after(start, requests.take(k - 1)),
            requests[k - 1].size,
            requests[k - 1].align,
        );
        lemma_pow2_positive(requests[k - 1].align as int);
    }
}

/// A run whose padded total fits in what is left is served whole: every
/// request of it gets a block.
pub proof fn theorem_run_within_capacity_is_served(start: nat, requests: Seq<Request>, i: int)
    requires
        aligned_to_powers_of_two(requests),
        alignments_supported(requests),
        padded_total(requests) <= start,
        0 <= i < requests.len(),
    ensures
        placed_at(start, requests, i) is Some,
{
    lemma_run_takes_at_most_padded_total(start, requests, i);
    lemma_run_takes_at_most_padded_total(start, requests, i + 1);
    lemma_step_of_run(start, requests, i);
    lemma_pow2_positive(requests[i].align as int);
    lemma_reserve_step(remaining_after(start, requests.take(i)), requests[i].size, requests[i].align);
}

} // verus!
