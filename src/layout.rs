use vstd::layout::{align_of, layout_for_type_is_valid, size_of, valid_layout};
use vstd::prelude::*;

use crate::allocator::AllocError;

verus! {

/// Whether `len` elements of `T`, laid out back to back, make a block that
/// can be described: its size fits in a `usize` and, rounded up to `T`'s
/// alignment, does not exceed `isize::MAX`.
pub open spec fn array_fits<T>(len: nat) -> bool {
    len * size_of::<T>() <= isize::MAX as int - (isize::MAX as int % align_of::<T>() as int)
}

/// The size and alignment of a block of memory.
///
/// Every value describes a block that an allocator may be asked for: the
/// alignment is a power of two and the size, rounded up to it, stays within
/// `isize::MAX`.
#[derive(Debug, Clone, Copy, PartialEq, Eq, Structural)]
pub struct Layout {
    size: usize,
    align: usize,
}

impl Layout {
    #[verifier::type_invariant]
    spec fn inv(self) -> bool {
        valid_layout(self.size, self.align)
    }

    pub closed spec fn spec_size(self) -> nat {
        self.size as nat
    }

    pub closed spec fn spec_align(self) -> nat {
        self.align as nat
    }

    /// The block's size in bytes.
    pub fn size(&self) -> (r: usize)
        ensures
            r == self.spec_size(),
            valid_layout(self.spec_size() as usize, self.spec_align() as usize),
    {
        proof {
            use_type_invariant(self);
        }
        self.size
    }

    /// The block's alignment in bytes.
    pub fn align(&self) -> (r: usize)
        ensures
            r == self.spec_align(),
    {
        self.align
    }

    /// The layout of `len` contiguous elements of `T`: `len * size_of::<T>()`
    /// bytes at `T`'s alignment. Fails exactly when that block cannot be
    /// described (see [`array_fits`]).
    pub fn array<T>(len: usize) -> (r: Result<Layout, AllocError>)
        ensures
            r is Ok <==> array_fits::<T>(len as nat),
            r matches Ok(l) ==> l.spec_size() == len * size_of::<T>() && l.spec_align()
                == align_of::<T>(),
    {
        layout_for_type_is_valid::<T>();
        let size = core::mem::size_of::<T>();
        let align = core::mem::align_of::<T>();
        let max: usize = (isize::MAX as usize) - ((isize::MAX as usize) % align);
        if size != 0 && len > max / size {
            proof {
                lemma_quotient_bound(len as int, size as int, max as int);
            }
            Err(AllocError)
        } else {
            proof {
                if size != 0 {
                    lemma_within_quotient(len as int, size as int, max as int);
                } else {
                    assert(len * size == 0) by (nonlinear_arith)
                        requires
                            size == 0,
                    ;
                }
            }
            let bytes = len * size;
            proof {
                assert(valid_layout(bytes, align));
            }
            Ok(Layout { size: bytes, align })
        }
    }
}

proof fn lemma_quotient_bound(n: int, d: int, m: int)
    requires
        d > 0,
        m >= 0,
        n > m / d,
    ensures
        n * d > m,
{
    assert(n * d > m) by (nonlinear_arith)
        requires
            d > 0,
            m >= 0,
            n > m / d,
    ;
}

proof fn lemma_within_quotient(n: int, d: int, m: int)
    requires
        d > 0,
        m >= 0,
        0 <= n <= m / d,
    ensures
        n * d <= m,
{
    assert(n * d <= m) by (nonlinear_arith)
        requires
            d > 0,
            m >= 0,
            0 <= n <= m / d,
    ;
}

/// An empty array of any element type has a layout.
pub proof fn lemma_empty_array_fits<T>()
    ensures
        array_fits::<T>(0),
{
    assert(isize::MAX as int % align_of::<T>() as int <= isize::MAX as int) by (nonlinear_arith)
        requires
            align_of::<T>() as int >= 0,
    ;
}

} // verus!
