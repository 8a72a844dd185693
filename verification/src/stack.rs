//! The contract a memory region must meet to serve as a stack.

use vstd::prelude::*;

verus! {

/// Smallest extent, in bytes, that any stack region must provide. A region
/// of at least one page leaves room for the entry frame and the first
/// activations of a generator body.
pub const PAGE_SIZE: usize = 4096;

/// Alignment, in bytes, that the host ABI demands of a stack pointer at a
/// call boundary.
pub const STACK_ALIGNMENT: usize = 16;

/// A contiguous region of memory usable as a call stack.
///
/// Stacks grow downward on all supported targets: the region is
/// `[limit, base)`, `base` one past the highest usable byte and `limit` the
/// lowest. Every implementation guarantees at least [`PAGE_SIZE`] bytes of
/// extent and natural alignment of `base`; `base()` answers for both
/// guarantees, so whoever lays a frame on the stack has them in hand.
pub trait Stack: Sized {
    /// One past the highest usable byte of the region.
    spec fn base_addr(&self) -> usize;

    /// The lowest usable byte of the region.
    spec fn limit_addr(&self) -> usize;

    /// Returns the address one past the highest usable byte, together with
    /// the provider's guarantees: the region spans at least one page, and
    /// its base is aligned for the host ABI.
    fn base(&self) -> (r: usize)
        ensures
            r == self.base_addr(),
            self.limit_addr() + PAGE_SIZE <= self.base_addr(),
            self.base_addr() % STACK_ALIGNMENT == 0,
    ;

    /// Returns the address of the lowest usable byte.
    fn limit(&self) -> (r: usize)
        ensures
            r == self.limit_addr(),
    ;
}

/// A [`Stack`] whose low end is protected: any access at or just below
/// `limit_addr()` faults instead of silently corrupting neighbouring memory.
/// The fault itself is a machine-level event, outside what these contracts
/// can state; the marker records the provider's guarantee. Constructing a
/// [`Generator`](crate::Generator) safely demands it, so that a body that
/// overflows its stack is stopped at the guard rather than running off into
/// unmapped memory.
pub trait GuardedStack: Stack {
}

/// A stack region described by its addresses alone.
///
/// The embedder that mapped the region vouches for the memory behind it —
/// typically an anonymous page mapping with a guard page at the low end.
/// This crate reasons only about the extent: where the region starts and
/// ends, and that the numbers obey the [`Stack`] contract.
#[derive(Clone, Copy, PartialEq, Eq, Structural, Debug)]
pub struct RegionStack {
    limit: usize,
    size: usize,
}

impl RegionStack {
    /// Every region spans at least a page, does not wrap around the address
    /// space, and ends at an ABI-aligned base.
    #[verifier::type_invariant]
    spec fn region_inv(self) -> bool {
        &&& PAGE_SIZE <= self.size
        &&& self.limit + self.size <= usize::MAX
        &&& (self.limit + self.size) % (STACK_ALIGNMENT as int) == 0
    }

    /// Describes the region `[limit, limit + size)`.
    pub fn new(limit: usize, size: usize) -> (r: Self)
        requires
            PAGE_SIZE <= size,
            limit + size <= usize::MAX,
            (limit + size) % (STACK_ALIGNMENT as int) == 0,
        ensures
            r.limit_addr() == limit,
            r.base_addr() == limit + size,
    {
        RegionStack { limit, size }
    }
}

impl Stack for RegionStack {
    closed spec fn base_addr(&self) -> usize {
        (self.limit + self.size) as usize
    }

    closed spec fn limit_addr(&self) -> usize {
        self.limit
    }

    fn base(&self) -> (r: usize) {
        proof {
            use_type_invariant(self);
        }
        self.limit + self.size
    }

    fn limit(&self) -> (r: usize) {
        self.limit
    }
}

impl GuardedStack for RegionStack {
}

} // verus!
