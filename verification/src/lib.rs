//! A page-granularity memory allocator core that delegates to the operating
//! system's anonymous-mapping primitives instead of managing a heap: every
//! allocation is a whole number of pages, growth either stays within the
//! already-mapped pages or relocates to a fresh mapping, and shrinking unmaps
//! whole pages from the tail.
//!
//! The allocator itself decides; the operating-system calls that carry its
//! decisions out (mapping and unmapping) are described by plain request
//! values, and their answers are fed back in as plain outcome values.

mod allocator;
mod arith;
mod laws;
mod layout;
mod mapping;

pub use crate::allocator::{
    can_allocate, padded_size, spec_allocate, spec_grow, spec_shrink, MMapAllocator,
};
pub use crate::arith::{
    is_pow2, is_power_of_two, lemma_pow2_divides, lemma_round_up_div_form, lemma_round_up_mono,
    lemma_round_up_properties, pad_to, round_up_to,
};
pub use crate::laws::{
    lemma_allocate_accepts_valid_requests, lemma_grow_in_place, lemma_grow_relocates,
    lemma_over_aligned_requests_fail, lemma_page_alignment_suffices, lemma_shrink_in_place,
    lemma_shrink_truncates,
};
pub use crate::layout::Layout;
pub use crate::mapping::{
    AllocationFailure, GrowAction, MapOutcome, MapRequest, Mapping, ShrinkAction, UnmapRequest,
};
