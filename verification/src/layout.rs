//! Memory-request layouts: a `(size, alignment)` pair describing a memory
//! need, with the usual validity conditions on such a pair.

use vstd::prelude::*;
use crate::arith::{is_pow2, is_power_of_two};

verus! {

/// A requested `(size, alignment)` pair describing a memory need.
#[derive(Clone, Copy, Debug, PartialEq, Eq, Structural)]
pub struct Layout {
    /// Requested byte count.
    pub size: usize,
    /// Required alignment in bytes; must be a power of two.
    pub align: usize,
}

impl Layout {
    /// A well-formed request: the alignment is a power of two, and the size,
    /// rounded up to the alignment, stays within `isize::MAX`.
    pub open spec fn wf(self) -> bool {
        is_pow2(self.align as int) && self.size + self.align - 1 <= isize::MAX
    }

    /// Builds a layout, rejecting an alignment that is not a power of two and
    /// a size that would exceed `isize::MAX` once rounded up to the alignment.
    pub fn from_size_align(size: usize, align: usize) -> (r: Option<Layout>)
        ensures
            r is Some <==> (is_pow2(align as int) && size + align - 1 <= isize::MAX),
            r matches Some(l) ==> l == (Layout { size, align }) && l.wf(),
    {
        if !is_power_of_two(align) {
            return None;
        }
        let align_rest = align - 1;
        let isize_max = isize::MAX as usize;
        if align_rest > isize_max {
            return None;
        }
        if size > isize_max - align_rest {
            return None;
        }
        Some(Layout { size, align })
    }
}

} // verus!
