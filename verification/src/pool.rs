//! The memory arena: bookkeeping for one contiguous raw byte region whose
//! base address is shared with the engine for zero-copy transfers.
//!
//! The arena's lifecycle is modelled over plain addresses: the allocator's
//! result enters as a `usize`, every offset query is exact integer arithmetic
//! on the recorded base, and release hands back precisely the (address, size,
//! alignment) triple that creation recorded. The caller that owns the real
//! allocation performs the allocator calls themselves and is obliged by move
//! semantics to release at most once: `release` consumes the arena.

use vstd::prelude::*;

verus! {

/// Mathematical model of an arena: the base address of its region and the
/// region's size in bytes.
pub struct PoolModel {
    pub base: nat,
    pub size: nat,
}

/// Every arena that `MemoryPool::new` hands out satisfies this: the base is
/// non-null, and the whole region, one-past-the-end address inclusive, lies
/// within the machine's address space, so `base + delta` is computable for
/// every `delta <= size` without overflow.
pub open spec fn pool_wf(m: PoolModel) -> bool {
    m.base != 0 && m.base + m.size <= usize::MAX
}

/// A fixed-size raw memory arena: it records the base address and byte count
/// of one contiguous region. The type holds plain integers only, so Rust
/// grants `Send` and `Sync` without any unsafe assertion: the lifecycle
/// bookkeeping can be observed from any execution context, while exactly one
/// owner can consume the arena with `release`.
pub struct MemoryPool {
    base: usize,
    size: usize,
}

impl View for MemoryPool {
    type V = PoolModel;

    closed spec fn view(&self) -> PoolModel {
        PoolModel { base: self.base as nat, size: self.size as nat }
    }
}

impl MemoryPool {
    /// Records a freshly allocated region of `size` bytes at address `base`.
    /// Returns `None` exactly when the address is unusable: null (the
    /// allocator failed), or so high that the region's one-past-the-end
    /// address would not fit in a machine word. The owner of the raw
    /// allocation treats `None` as the fatal allocation failure.
    pub fn new(base: usize, size: usize) -> (r: Option<MemoryPool>)
        ensures
            r is Some <==> base != 0 && base + size <= usize::MAX,
            r is Some ==> r->0@ == (PoolModel { base: base as nat, size: size as nat }),
            r is Some ==> pool_wf(r->0@),
    {
        if base != 0 && size <= usize::MAX - base {
            Some(MemoryPool { base, size })
        } else {
            None
        }
    }

    /// The size in bytes recorded at creation; fixed for the arena's lifetime.
    pub fn size(&self) -> (s: usize)
        ensures
            s == self@.size,
    {
        self.size
    }

    /// The address `base + delta`, exactly. Every `delta` up to and
    /// one-past-the-end of the region is computable and non-null; whether the
    /// resulting address may be dereferenced is the caller's contract, not
    /// this function's.
    pub fn offset(&self, delta: usize) -> (addr: usize)
        requires
            pool_wf(self@),
            delta <= self@.size,
        ensures
            addr == self@.base + delta,
            addr != 0,
    {
        self.base + delta
    }

    /// Consumes the arena and hands back the deallocation triple: the base
    /// address, the byte count requested at creation, and the alignment the
    /// region was allocated with (always 1). Taking `self` by value makes a
    /// second release of the same arena impossible.
    pub fn release(self) -> (r: (usize, usize, usize))
        ensures
            r.0 == self@.base,
            r.1 == self@.size,
            r.2 == 1,
    {
        (self.base, self.size, 1)
    }
}

/// Law: on a well-formed arena every offset in `[0, size]` yields an address
/// in `[base, base + size]`; that address fits in a machine word and is
/// non-null.
pub proof fn lemma_offset_in_range(m: PoolModel, delta: nat)
    requires
        pool_wf(m),
        delta <= m.size,
    ensures
        m.base <= m.base + delta <= usize::MAX,
        m.base + delta != 0,
{
}

} // verus!
