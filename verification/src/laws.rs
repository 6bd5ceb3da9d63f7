//! The general guarantees of the allocator, each stated and proved over the
//! decision functions of `allocator`.

use vstd::prelude::*;
use crate::allocator::{can_allocate, padded_size, spec_allocate, spec_grow, spec_shrink};
use vstd::arithmetic::div_mod::{lemma_fundamental_div_mod, lemma_mod_multiples_basic};
use crate::arith::{
    is_pow2, lemma_pow2_divides, lemma_round_up_div_form, lemma_round_up_mono,
    lemma_round_up_properties,
};
use crate::layout::Layout;
use crate::mapping::{
    AllocationFailure, GrowAction, MapRequest, Mapping, ShrinkAction, UnmapRequest,
};

verus! {

/// Every well-formed request with a positive size, an alignment at most the
/// page size, and a size that survives page rounding within the platform
/// limit is accepted, and the granted length is the size rounded up to the
/// next whole page: `((size + ps - 1) / ps) * ps`, a multiple of the page
/// size, at least the requested size, and less than one page more.
pub proof fn lemma_allocate_accepts_valid_requests(layout: Layout, ps: usize)
    requires
        layout.wf(),
        ps >= 1,
        layout.size >= 1,
        layout.align <= ps,
        layout.size + ps - 1 <= isize::MAX,
    ensures
        spec_allocate(layout, ps) is Ok,
        spec_allocate(layout, ps)->Ok_0.len as int == padded_size(layout, ps),
        padded_size(layout, ps) == ((layout.size + ps - 1) / ps as int) * ps,
        padded_size(layout, ps) % ps as int == 0,
        layout.size <= padded_size(layout, ps) < layout.size + ps,
{
    lemma_round_up_properties(layout.size as int, ps as int);
    lemma_round_up_div_form(layout.size as int, ps as int);
}

/// A request whose alignment exceeds the page size is refused by allocation,
/// growth, and shrinking alike, whatever its size and whatever the mapping
/// and the old layout at hand.
pub proof fn lemma_over_aligned_requests_fail(
    mapping: Mapping,
    old_layout: Layout,
    layout: Layout,
    ps: usize,
)
    requires
        layout.align > ps,
    ensures
        spec_allocate(layout, ps) == Err::<MapRequest, AllocationFailure>(AllocationFailure),
        spec_grow(mapping, old_layout, layout, ps) == Err::<GrowAction, AllocationFailure>(
            AllocationFailure,
        ),
        spec_shrink(mapping, old_layout, layout, ps) == Err::<ShrinkAction, AllocationFailure>(
            AllocationFailure,
        ),
{
}

/// Growing within the same page count — the old and the new padded size are
/// equal — keeps the mapping exactly as it is: identical base address,
/// identical length. No operating-system request is issued, so every byte
/// previously written through the mapping is untouched.
pub proof fn lemma_grow_in_place(
    mapping: Mapping,
    old_layout: Layout,
    new_layout: Layout,
    ps: usize,
)
    requires
        ps >= 1,
        can_allocate(new_layout, ps),
        padded_size(new_layout, ps) == padded_size(old_layout, ps),
    ensures
        spec_grow(mapping, old_layout, new_layout, ps) == Ok::<GrowAction, AllocationFailure>(
            GrowAction::InPlace(mapping),
        ),
{
}

/// Growing across a page-count boundary relocates: a fresh mapping of the new
/// padded size — strictly more pages than before — is requested, and exactly
/// the first `old_layout.size` bytes (the old requested size, not the old
/// padded size) are carried over. That the fresh mapping has a different base
/// address is guaranteed by `MMapAllocator::finish_grow`, since the old
/// mapping is still mapped when the new one is created.
pub proof fn lemma_grow_relocates(
    mapping: Mapping,
    old_layout: Layout,
    new_layout: Layout,
    ps: usize,
)
    requires
        ps >= 1,
        can_allocate(new_layout, ps),
        old_layout.size <= new_layout.size,
        padded_size(new_layout, ps) != padded_size(old_layout, ps),
    ensures
        spec_grow(mapping, old_layout, new_layout, ps) == Ok::<GrowAction, AllocationFailure>(
            GrowAction::Relocate {
                request: (MapRequest { len: padded_size(new_layout, ps) as usize }),
                copy_len: old_layout.size,
            },
        ),
        padded_size(new_layout, ps) > padded_size(old_layout, ps),
{
    lemma_round_up_mono(old_layout.size as int, new_layout.size as int, ps as int);
}

/// Shrinking within the same page count — the old and the new padded size are
/// equal — keeps the mapping exactly as it is: identical base address and
/// identical, unchanged length, even though part of the tail is now unused.
pub proof fn lemma_shrink_in_place(
    mapping: Mapping,
    old_layout: Layout,
    new_layout: Layout,
    ps: usize,
)
    requires
        ps >= 1,
        new_layout.align <= ps,
        padded_size(new_layout, ps) == padded_size(old_layout, ps),
    ensures
        spec_shrink(mapping, old_layout, new_layout, ps) == Ok::<ShrinkAction, AllocationFailure>(
            ShrinkAction::InPlace(mapping),
        ),
{
}

/// Shrinking across a page-count boundary keeps the identical base address
/// and retains exactly the new, smaller padded size; the unmapped range is
/// precisely the tail beyond it, so the retained and the unmapped lengths add
/// up to the mapped length before the shrink.
pub proof fn lemma_shrink_truncates(
    mapping: Mapping,
    old_layout: Layout,
    new_layout: Layout,
    ps: usize,
)
    requires
        ps >= 1,
        new_layout.align <= ps,
        new_layout.size <= old_layout.size,
        padded_size(new_layout, ps) != padded_size(old_layout, ps),
        mapping.wf(ps),
        mapping.len as int == padded_size(old_layout, ps),
    ensures
        spec_shrink(mapping, old_layout, new_layout, ps) == Ok::<ShrinkAction, AllocationFailure>(
            ShrinkAction::Truncate {
                retained: (Mapping {
                    addr: mapping.addr,
                    len: padded_size(new_layout, ps) as usize,
                }),
                unmap: (UnmapRequest {
                    addr: (mapping.addr + padded_size(new_layout, ps)) as usize,
                    len: (mapping.len - padded_size(new_layout, ps)) as usize,
                }),
            },
        ),
        padded_size(new_layout, ps) < padded_size(old_layout, ps),
        padded_size(new_layout, ps) + (mapping.len - padded_size(new_layout, ps)) == mapping.len,
{
    lemma_round_up_properties(new_layout.size as int, ps as int);
    lemma_round_up_mono(new_layout.size as int, old_layout.size as int, ps as int);
}

/// Page alignment is enough for every accepted request: the alignment of an
/// accepted layout is a power of two no larger than the page size, so — the
/// page size being a power of two itself — it divides the page size, and a
/// mapping's page-aligned base address is aligned for the layout as well.
/// This is why a request is refused exactly when its alignment exceeds the
/// page size: an anonymous mapping guarantees page alignment and nothing
/// finer.
pub proof fn lemma_page_alignment_suffices(mapping: Mapping, layout: Layout, ps: usize)
    requires
        mapping.wf(ps),
        is_pow2(layout.align as int),
        is_pow2(ps as int),
        layout.align <= ps,
    ensures
        mapping.addr as int % layout.align as int == 0,
{
    let align = layout.align as int;
    let p = ps as int;
    let addr = mapping.addr as int;
    lemma_pow2_divides(align, p);
    lemma_fundamental_div_mod(p, align);
    lemma_fundamental_div_mod(addr, p);
    let j = p / align;
    let k = addr / p;
    lemma_mod_multiples_basic(j * k, align);
    assert(addr == (j * k) * align) by (nonlinear_arith)
        requires
            p == align * j,
            addr == p * k,
    ;
}

} // verus!
