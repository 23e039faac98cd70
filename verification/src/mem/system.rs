//! Bookkeeping for the platform allocator: a running total of the bytes that
//! it was asked for and gave.

use vstd::prelude::*;

verus! {

/// `total + size` in the arithmetic of a machine word: a sum above
/// `usize::MAX` wraps around to zero.
pub open spec fn counter_add(total: nat, size: nat) -> nat
    recommends
        total <= usize::MAX,
        size <= usize::MAX,
{
    if total + size > usize::MAX {
        (total + size - usize::MAX - 1) as nat
    } else {
        total + size
    }
}

/// `total - size` in the arithmetic of a machine word: a difference below
/// zero wraps around to `usize::MAX`.
pub open spec fn counter_sub(total: nat, size: nat) -> nat
    recommends
        total <= usize::MAX,
        size <= usize::MAX,
{
    if size > total {
        (total + usize::MAX + 1 - size) as nat
    } else {
        (total - size) as nat
    }
}

/// The running total of one platform allocator. The view is the total in
/// bytes.
#[derive(Debug)]
pub struct SystemAllocator {
    allocated: usize,
}

impl View for SystemAllocator {
    type V = nat;

    closed spec fn view(&self) -> nat {
        self.allocated as nat
    }
}

impl SystemAllocator {
    /// A total of zero.
    pub fn new() -> (system: Self)
        ensures
            system@ == 0,
    {
        SystemAllocator { allocated: 0 }
    }

    /// The running total.
    pub fn allocated(&self) -> (bytes: usize)
        ensures
            bytes == self@,
    {
        self.allocated
    }

    /// Records the outcome of one request of `size` bytes to the platform:
    /// the total grows by `size` if the platform served it, and stays if not.
    pub fn record_allocation(&mut self, size: usize, served: bool)
        ensures
            final(self)@ == if served {
                counter_add(old(self)@, size as nat)
            } else {
                old(self)@
            },
            final(self)@ <= usize::MAX,
        no_unwind
    {
        if served {
            let room: usize = usize::MAX - self.allocated;
            self.allocated = if size > room {
                size - room - 1
            } else {
                self.allocated + size
            };
        }
    }

    /// Records that `size` bytes went back to the platform.
    pub fn record_deallocation(&mut self, size: usize)
        ensures
            final(self)@ == counter_sub(old(self)@, size as nat),
            final(self)@ <= usize::MAX,
        no_unwind
    {
        self.allocated = if size > self.allocated {
            usize::MAX - (size - self.allocated) + 1
        } else {
            self.allocated - size
        };
    }
}

} // verus!
