//! The values exchanged with the operating system's paging primitives:
//! mapping handles, map and unmap requests, and the recoverable failure.

use vstd::prelude::*;

verus! {

/// The recoverable allocation failure: the requested alignment exceeds the
/// page size, the padded size exceeds the platform limit, or the operating
/// system declined to map memory.
#[derive(Clone, Copy, Debug, PartialEq, Eq, Structural)]
pub struct AllocationFailure;

/// A request to the operating system for a fresh anonymous, private,
/// read-write mapping of `len` bytes (zero-filled by construction).
#[derive(Clone, Copy, Debug, PartialEq, Eq, Structural)]
pub struct MapRequest {
    /// Length in bytes of the mapping to create; a whole number of pages.
    pub len: usize,
}

/// The operating system's answer to a `MapRequest`.
#[derive(Clone, Copy, Debug, PartialEq, Eq, Structural)]
pub enum MapOutcome {
    /// A mapping was created at this base address.
    Mapped(usize),
    /// The operating system declined, e.g. for want of address space.
    Failed,
}

/// A byte range to be removed from the address space. If the operating system
/// refuses such a removal, the caller must treat it as an unrecoverable
/// internal fault and abort rather than continue with a leaked range.
#[derive(Clone, Copy, Debug, PartialEq, Eq, Structural)]
pub struct UnmapRequest {
    /// First byte of the range.
    pub addr: usize,
    /// Length of the range in bytes.
    pub len: usize,
}

/// An allocation as this allocator sees it: a base address and the mapped
/// length. The holder owns the range exclusively until the handle is consumed
/// by deallocation, growth, or shrinking.
#[derive(Clone, Copy, Debug, PartialEq, Eq, Structural)]
pub struct Mapping {
    /// Base address of the mapped range.
    pub addr: usize,
    /// Mapped length in bytes; always an exact multiple of the page size.
    pub len: usize,
}

impl Mapping {
    /// The invariants of a live mapping under page size `ps`: a nonzero,
    /// page-aligned base address, a nonempty whole-page length, and a range
    /// that lies within the address space.
    pub open spec fn wf(self, ps: usize) -> bool {
        &&& self.addr >= 1
        &&& self.addr as int % ps as int == 0
        &&& self.len >= 1
        &&& self.len as int % ps as int == 0
        &&& self.addr + self.len <= usize::MAX
    }
}

/// How a grow request is carried out.
#[derive(Clone, Copy, Debug, PartialEq, Eq, Structural)]
pub enum GrowAction {
    /// The new request still fits in the already-mapped pages: the mapping is
    /// returned as it is, and no operating-system call is needed.
    InPlace(Mapping),
    /// The request crosses a page-count boundary: create the fresh mapping
    /// described by `request`, copy the first `copy_len` bytes (the old
    /// requested size) into it, then unmap the old mapping in full.
    Relocate {
        /// The fresh mapping to create, of the new padded size.
        request: MapRequest,
        /// How many leading bytes to carry over from the old mapping.
        copy_len: usize,
    },
}

/// How a shrink request is carried out.
#[derive(Clone, Copy, Debug, PartialEq, Eq, Structural)]
pub enum ShrinkAction {
    /// The retained size still spans the same pages: the mapping is returned
    /// unchanged, and no operating-system call is needed.
    InPlace(Mapping),
    /// The request frees whole pages at the tail: `retained` is the surviving
    /// mapping (same base address, smaller length) and `unmap` is exactly the
    /// trailing range to remove, which starts where `retained` ends.
    Truncate {
        /// The surviving head of the mapping.
        retained: Mapping,
        /// The trailing byte range to unmap.
        unmap: UnmapRequest,
    },
}

} // verus!
