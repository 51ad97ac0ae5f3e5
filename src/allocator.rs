use vstd::prelude::*;

use crate::layout::Layout;

verus! {

/// The one failure of construction: the block could not be described, or the
/// allocator declined to reserve it.
#[derive(Debug, Clone, Copy, PartialEq, Eq, Structural)]
pub struct AllocError;

/// A source of memory blocks, chosen by the caller and bound to each handle
/// that it serves.
///
/// Any request may be declined, and an address is only a token that names the
/// block to give back. The model of an allocator is the log of the calls made
/// to it: `requests`, each layout asked for with the answer it got, and
/// `released`, each block given back with the layout passed along. Code that
/// is verified against these contracts sees the log only through them; an
/// implementation verified with this library defines both logs, and the
/// empty defaults serve implementations that are not verified.
pub trait Allocator {
    /// Every request so far, in order: the layout asked for and the answer.
    open spec fn requests(&self) -> Seq<(Layout, Result<usize, AllocError>)> {
        Seq::empty()
    }

    /// Every block given back so far, in order: its address and layout.
    open spec fn released(&self) -> Seq<(usize, Layout)> {
        Seq::empty()
    }

    /// Reserves a block that fits `layout` and returns its start address, or
    /// `AllocError` when the request cannot be met.
    fn allocate(&mut self, layout: Layout) -> (r: Result<usize, AllocError>)
        ensures
            final(self).requests() == old(self).requests().push((layout, r)),
            final(self).released() == old(self).released(),
    ;

    /// Returns the block at `addr`, reserved earlier with this same `layout`.
    fn deallocate(&mut self, addr: usize, layout: Layout)
        ensures
            final(self).released() == old(self).released().push((addr, layout)),
            final(self).requests() == old(self).requests(),
    ;
}

} // verus!
