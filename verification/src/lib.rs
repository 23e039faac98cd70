//! A pluggable memory allocator core: a stack of allocation contexts selects,
//! for every request, between the platform allocator and two fixed-capacity
//! bump allocators. All state is held as plain values, so that each transition
//! is stated and proved exactly.

pub mod mem;
