//! A fixed-capacity bump allocator. It hands out offsets into a buffer of
//! `BUMP_CAPACITY` bytes, from the high end downwards, and never takes one
//! back.

use crate::mem::align::{align_down, lemma_align_down, lemma_mask_rounds_down, lemma_pow2_positive};
use vstd::arithmetic::power2::is_pow2;
use vstd::prelude::*;

verus! {

/// Size in bytes of the buffer behind one bump allocator (128 KiB).
pub const BUMP_CAPACITY: usize = 131072;

/// Largest alignment a bump allocator serves. The buffer itself is aligned to
/// it, so an offset that is a multiple of a smaller power of two is an address
/// that is one too.
pub const MAX_SUPPORTED_ALIGN: usize = 4096;

/// Where the cursor moves when `size` bytes aligned to `align` are requested
/// with `remaining` bytes left: `None` if the request is refused, else the new
/// number of bytes left, which is also the offset of the block handed out.
pub open spec fn reserve_spec(remaining: nat, size: nat, align: nat) -> Option<nat> {
    if align > MAX_SUPPORTED_ALIGN || size > remaining {
        None
    } else {
        Some(align_down((remaining - size) as nat, align))
    }
}

/// One step of the cursor, as a function of the bytes left before it.
///
/// A caller that keeps the cursor elsewhere, in a shared word that it updates
/// by compare-and-swap for one, computes each attempt with this function.
pub fn reserve(remaining: usize, size: usize, align: usize) -> (next: Option<usize>)
    requires
        is_pow2(align as int),
    ensures
        match next {
            Some(n) => reserve_spec(remaining as nat, size as nat, align as nat) == Some(n as nat),
            None => reserve_spec(remaining as nat, size as nat, align as nat) is None,
        },
        align > MAX_SUPPORTED_ALIGN ==> next is None,
        size > remaining ==> next is None,
        next matches Some(n) ==> n % align == 0 && n + size <= remaining,
    no_unwind
{
    if align > MAX_SUPPORTED_ALIGN {
        return None;
    }
    if size > remaining {
        return None;
    }
    let below: usize = remaining - size;
    proof {
        lemma_pow2_positive(align as int);
        lemma_mask_rounds_down(below, align);
        lemma_align_down(below as nat, align as nat);
    }
    let round_down_mask: usize = !(align - 1);
    Some(below & round_down_mask)
}

/// The cursor of one bump allocator. The view is the number of bytes left,
/// which never exceeds `BUMP_CAPACITY` and never grows.
#[derive(Debug)]
pub struct BumpAllocator {
    remaining: usize,
}

impl View for BumpAllocator {
    type V = nat;

    closed spec fn view(&self) -> nat {
        self.remaining as nat
    }
}

impl BumpAllocator {
    #[verifier::type_invariant]
    spec fn within_capacity(self) -> bool {
        self.remaining <= BUMP_CAPACITY
    }

    /// An allocator with the whole buffer left.
    pub fn new() -> (bump: Self)
        ensures
            bump@ == BUMP_CAPACITY,
    {
        BumpAllocator { remaining: BUMP_CAPACITY }
    }

    /// Bytes left below the cursor.
    pub fn remaining(&self) -> (bytes: usize)
        ensures
            bytes == self@,
            bytes <= BUMP_CAPACITY,
    {
        proof {
            use_type_invariant(self);
        }
        self.remaining
    }

    /// Bytes between the cursor and the end of the buffer: what was handed
    /// out, padding included.
    pub fn allocated(&self) -> (bytes: usize)
        ensures
            bytes == BUMP_CAPACITY - self@,
    {
        proof {
            use_type_invariant(self);
        }
        BUMP_CAPACITY - self.remaining
    }

    /// Reserves `size` bytes aligned to `align` and returns the offset of the
    /// block in the buffer, or refuses and leaves the cursor where it is.
    ///
    /// The block is `[offset, offset + size)`. It lies below every block
    /// handed out before, and the new cursor is its offset.
    pub fn allocate(&mut self, size: usize, align: usize) -> (offset: Option<usize>)
        requires
            is_pow2(align as int),
        ensures
            match reserve_spec(old(self)@, size as nat, align as nat) {
                Some(n) => offset == Some(n as usize) && final(self)@ == n,
                None => offset is None && final(self)@ == old(self)@,
            },
            align > MAX_SUPPORTED_ALIGN ==> offset is None,
            size > old(self)@ ==> offset is None && final(self)@ == old(self)@,
            offset matches Some(at) ==> at % align == 0 && at + size <= old(self)@,
            final(self)@ <= old(self)@,
        no_unwind
    {
        proof {
            use_type_invariant(&*self);
        }
        let next: Option<usize> = reserve(self.remaining, size, align);
        match next {
            Some(n) => {
                self.remaining = n;
                Some(n)
            },
            None => None,
        }
    }

    /// Gives a block back. Nothing is reclaimed: the cursor stays.
    pub fn deallocate(&mut self, _offset: usize, _size: usize)
        ensures
            final(self)@ == old(self)@,
    {
    }
}

} // verus!
