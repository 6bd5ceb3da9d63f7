//! The mapping allocator: a stateless marker value whose operations turn
//! layout requests into page-granular mapping decisions.
//!
//! Each operation computes exactly what the operating system is to be asked —
//! a fresh anonymous mapping, an unmap of a trailing range, or nothing at all —
//! and the answer to a map request is fed back through `finish_allocate` or
//! `finish_grow` to obtain the resulting mapping handle.

use vstd::prelude::*;
use crate::arith::{lemma_round_up_mono, lemma_round_up_properties, pad_to, round_up_to};
use crate::layout::Layout;
use crate::mapping::{
    AllocationFailure, GrowAction, MapOutcome, MapRequest, Mapping, ShrinkAction, UnmapRequest,
};

verus! {

/// Relies on page_size::get: the system's memory page size in bytes, a
/// positive number on every supported platform (POSIX `sysconf`, Windows
/// `dwPageSize`, or a fixed fallback).
#[verifier::external_body]
fn os_page_size() -> (r: usize)
    ensures
        r >= 1,
{
    page_size::get()
}

/// The requested size rounded up to the next whole page of size `ps`.
pub open spec fn padded_size(layout: Layout, ps: usize) -> int
    recommends
        ps >= 1,
{
    round_up_to(layout.size as int, ps as int)
}

/// Whether a request is accepted under page size `ps`: the alignment must not
/// exceed the page size (an anonymous mapping is only ever page-aligned), and
/// the size must survive rounding up to a page without exceeding `isize::MAX`
/// (the layout-validity bound of the platform).
pub open spec fn can_allocate(layout: Layout, ps: usize) -> bool {
    layout.align <= ps && layout.size + ps - 1 <= isize::MAX
}

/// What allocation decides: the map request for the padded size, or failure.
pub open spec fn spec_allocate(layout: Layout, ps: usize) -> Result<MapRequest, AllocationFailure>
    recommends
        ps >= 1,
{
    if can_allocate(layout, ps) {
        Ok(MapRequest { len: padded_size(layout, ps) as usize })
    } else {
        Err(AllocationFailure)
    }
}

/// What growing decides: failure if the new layout is not accepted; the
/// unchanged mapping while the new padded size equals the old one; otherwise a
/// relocation that maps the new padded size and carries over the old
/// requested size.
pub open spec fn spec_grow(
    mapping: Mapping,
    old_layout: Layout,
    new_layout: Layout,
    ps: usize,
) -> Result<GrowAction, AllocationFailure>
    recommends
        ps >= 1,
{
    if !can_allocate(new_layout, ps) {
        Err(AllocationFailure)
    } else if padded_size(new_layout, ps) == padded_size(old_layout, ps) {
        Ok(GrowAction::InPlace(mapping))
    } else {
        Ok(
            GrowAction::Relocate {
                request: MapRequest { len: padded_size(new_layout, ps) as usize },
                copy_len: old_layout.size,
            },
        )
    }
}

/// What shrinking decides: failure if the new alignment exceeds the page
/// size; the unchanged mapping while the new padded size equals the old one;
/// otherwise the retained head plus the exact trailing range to unmap.
pub open spec fn spec_shrink(
    mapping: Mapping,
    old_layout: Layout,
    new_layout: Layout,
    ps: usize,
) -> Result<ShrinkAction, AllocationFailure>
    recommends
        ps >= 1,
{
    if new_layout.align > ps {
        Err(AllocationFailure)
    } else if padded_size(new_layout, ps) == padded_size(old_layout, ps) {
        Ok(ShrinkAction::InPlace(mapping))
    } else {
        Ok(
            ShrinkAction::Truncate {
                retained: Mapping { addr: mapping.addr, len: padded_size(new_layout, ps) as usize },
                unmap: UnmapRequest {
                    addr: (mapping.addr + padded_size(new_layout, ps)) as usize,
                    len: (mapping.len - padded_size(new_layout, ps)) as usize,
                },
            },
        )
    }
}

/// The page-mapping allocator. It holds no state of its own: every operation
/// is a pure function of its arguments, so the value is freely copyable and
/// safe to share.
#[derive(Clone, Copy, Debug, Default)]
pub struct MMapAllocator;

impl MMapAllocator {
    /// The operating system's page size, queried at runtime and treated as
    /// constant for the life of the process.
    pub fn page_size(&self) -> (r: usize)
        ensures
            r >= 1,
    {
        os_page_size()
    }

    /// Decides an allocation: rejects an alignment beyond the page size or a
    /// size beyond the platform limit, and otherwise asks for an anonymous
    /// mapping of the requested size rounded up to the next whole page.
    pub fn allocate(&self, layout: Layout, ps: usize) -> (r: Result<MapRequest, AllocationFailure>)
        requires
            layout.wf(),
            ps >= 1,
        ensures
            r == spec_allocate(layout, ps),
            r matches Ok(req) ==> req.len as int % ps as int == 0 && req.len >= layout.size
                && req.len <= isize::MAX,
    {
        if layout.align > ps {
            // An anonymous mapping can only guarantee page alignment.
            return Err(AllocationFailure);
        }
        let isize_max = isize::MAX as usize;
        if ps - 1 > isize_max || layout.size > isize_max - (ps - 1) {
            // Rounding up to a whole page would exceed the layout bound.
            return Err(AllocationFailure);
        }
        proof {
            lemma_round_up_properties(layout.size as int, ps as int);
        }
        let len = pad_to(layout.size, ps);
        Ok(MapRequest { len })
    }

    /// Identical to `allocate`: an anonymous mapping starts zero-filled by
    /// construction, so no extra zeroing pass is ever needed.
    pub fn allocate_zeroed(&self, layout: Layout, ps: usize) -> (r: Result<
        MapRequest,
        AllocationFailure,
    >)
        requires
            layout.wf(),
            ps >= 1,
        ensures
            r == spec_allocate(layout, ps),
            r matches Ok(req) ==> req.len as int % ps as int == 0 && req.len >= layout.size
                && req.len <= isize::MAX,
    {
        self.allocate(layout, ps)
    }

    /// Decides a deallocation: the full recorded length of the mapping is to
    /// be unmapped. The handle must not be used again afterwards; if the
    /// operating system refuses this unmap, the caller must abort.
    pub fn deallocate(&self, mapping: Mapping) -> (r: UnmapRequest)
        ensures
            r.addr == mapping.addr,
            r.len == mapping.len,
    {
        UnmapRequest { addr: mapping.addr, len: mapping.len }
    }

    /// Decides a grow of `mapping`, which currently satisfies `old_layout`,
    /// to `new_layout`. While the new padded size equals the old one the
    /// mapping is kept as it is; otherwise a fresh mapping of the new padded
    /// size is to be created, the first `old_layout.size` bytes copied over,
    /// and the old mapping unmapped in full. On failure nothing is to be
    /// done: the old mapping stays valid.
    pub fn grow(
        &self,
        mapping: Mapping,
        old_layout: Layout,
        new_layout: Layout,
        ps: usize,
    ) -> (r: Result<GrowAction, AllocationFailure>)
        requires
            ps >= 1,
            old_layout.wf(),
            new_layout.wf(),
            new_layout.size >= old_layout.size,
            can_allocate(old_layout, ps),
            mapping.wf(ps),
            mapping.len as int == padded_size(old_layout, ps),
        ensures
            r == spec_grow(mapping, old_layout, new_layout, ps),
            r matches Ok(GrowAction::Relocate { request, copy_len }) ==> request.len as int
                % ps as int == 0 && request.len >= new_layout.size && request.len <= isize::MAX
                && request.len > mapping.len && copy_len <= mapping.len,
    {
        if new_layout.align > ps {
            // An anonymous mapping can only guarantee page alignment.
            return Err(AllocationFailure);
        }
        let isize_max = isize::MAX as usize;
        if new_layout.size > isize_max - (ps - 1) {
            // Rounding up to a whole page would exceed the layout bound.
            return Err(AllocationFailure);
        }
        proof {
            lemma_round_up_properties(old_layout.size as int, ps as int);
            lemma_round_up_properties(new_layout.size as int, ps as int);
            lemma_round_up_mono(old_layout.size as int, new_layout.size as int, ps as int);
        }
        let new_padded = pad_to(new_layout.size, ps);
        if new_padded == mapping.len {
            // The request still fits in the pages already mapped.
            Ok(GrowAction::InPlace(mapping))
        } else {
            Ok(
                GrowAction::Relocate {
                    request: MapRequest { len: new_padded },
                    copy_len: old_layout.size,
                },
            )
        }
    }

    /// Identical to `grow`: when growth stays within the mapped pages the new
    /// bytes were already zero from the mapping's creation, and when it
    /// relocates the fresh mapping is zero-filled beyond the copied prefix.
    pub fn grow_zeroed(
        &self,
        mapping: Mapping,
        old_layout: Layout,
        new_layout: Layout,
        ps: usize,
    ) -> (r: Result<GrowAction, AllocationFailure>)
        requires
            ps >= 1,
            old_layout.wf(),
            new_layout.wf(),
            new_layout.size >= old_layout.size,
            can_allocate(old_layout, ps),
            mapping.wf(ps),
            mapping.len as int == padded_size(old_layout, ps),
        ensures
            r == spec_grow(mapping, old_layout, new_layout, ps),
            r matches Ok(GrowAction::Relocate { request, copy_len }) ==> request.len as int
                % ps as int == 0 && request.len >= new_layout.size && request.len <= isize::MAX
                && request.len > mapping.len && copy_len <= mapping.len,
    {
        self.grow(mapping, old_layout, new_layout, ps)
    }

    /// Decides a shrink of `mapping`, which currently satisfies `old_layout`,
    /// to `new_layout`. While the new padded size equals the old one the
    /// mapping is kept as it is, length included; otherwise the head of the
    /// new padded size is retained under the same base address and exactly
    /// the pages beyond it are to be unmapped. If that unmap fails, the
    /// caller must abort.
    pub fn shrink(
        &self,
        mapping: Mapping,
        old_layout: Layout,
        new_layout: Layout,
        ps: usize,
    ) -> (r: Result<ShrinkAction, AllocationFailure>)
        requires
            ps >= 1,
            old_layout.wf(),
            new_layout.wf(),
            new_layout.size <= old_layout.size,
            can_allocate(old_layout, ps),
            mapping.wf(ps),
            mapping.len as int == padded_size(old_layout, ps),
        ensures
            r == spec_shrink(mapping, old_layout, new_layout, ps),
            r matches Ok(ShrinkAction::Truncate { retained, unmap }) ==> retained.addr
                == mapping.addr && retained.len as int % ps as int == 0 && retained.len
                >= new_layout.size && unmap.addr as int == mapping.addr + retained.len
                && unmap.len >= 1 && retained.len + unmap.len == mapping.len,
    {
        if new_layout.align > ps {
            // An anonymous mapping can only guarantee page alignment.
            return Err(AllocationFailure);
        }
        proof {
            lemma_round_up_properties(new_layout.size as int, ps as int);
            lemma_round_up_mono(new_layout.size as int, old_layout.size as int, ps as int);
        }
        let retained_len = pad_to(new_layout.size, ps);
        if retained_len == mapping.len {
            // No page boundary is crossed: nothing to give back.
            Ok(ShrinkAction::InPlace(mapping))
        } else {
            Ok(
                ShrinkAction::Truncate {
                    retained: Mapping { addr: mapping.addr, len: retained_len },
                    unmap: UnmapRequest {
                        addr: mapping.addr + retained_len,
                        len: mapping.len - retained_len,
                    },
                },
            )
        }
    }

    /// Builds the mapping handle for an answered map request. The caller
    /// passes the operating system's answer and thereby vouches for the
    /// mapping guarantees: a successful anonymous mapping has a nonzero,
    /// page-aligned base address, lies within the address space, and is never
    /// empty (a zero-length request always fails).
    pub fn finish_allocate(
        &self,
        request: MapRequest,
        outcome: MapOutcome,
        ps: usize,
    ) -> (r: Result<Mapping, AllocationFailure>)
        requires
            ps >= 1,
            request.len as int % ps as int == 0,
            outcome matches MapOutcome::Mapped(a) ==> a >= 1 && a as int % ps as int == 0 && a
                + request.len <= usize::MAX && request.len >= 1,
        ensures
            outcome matches MapOutcome::Mapped(a) ==> r is Ok && r->Ok_0.addr == a
                && r->Ok_0.len == request.len && r->Ok_0.wf(ps),
            outcome is Failed ==> r is Err,
    {
        match outcome {
            MapOutcome::Mapped(addr) => Ok(Mapping { addr, len: request.len }),
            MapOutcome::Failed => Err(AllocationFailure),
        }
    }

    /// Builds the mapping handle for an answered relocation request of a
    /// grow. Beyond the guarantees of `finish_allocate`, the fresh mapping is
    /// disjoint from the old one — which is still mapped at this point — so
    /// its base address is necessarily different. On failure the old mapping
    /// has not been touched and stays valid.
    pub fn finish_grow(
        &self,
        mapping: Mapping,
        request: MapRequest,
        outcome: MapOutcome,
        ps: usize,
    ) -> (r: Result<Mapping, AllocationFailure>)
        requires
            ps >= 1,
            mapping.wf(ps),
            request.len as int % ps as int == 0,
            outcome matches MapOutcome::Mapped(a) ==> a >= 1 && a as int % ps as int == 0 && a
                + request.len <= usize::MAX && request.len >= 1 && (a + request.len <= mapping.addr
                || a >= mapping.addr + mapping.len),
        ensures
            outcome matches MapOutcome::Mapped(a) ==> r is Ok && r->Ok_0.addr == a
                && r->Ok_0.len == request.len && r->Ok_0.wf(ps) && r->Ok_0.addr != mapping.addr,
            outcome is Failed ==> r is Err,
    {
        match outcome {
            MapOutcome::Mapped(addr) => Ok(Mapping { addr, len: request.len }),
            MapOutcome::Failed => Err(AllocationFailure),
        }
    }
}

} // verus!
