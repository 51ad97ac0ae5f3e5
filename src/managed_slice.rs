use core::mem::MaybeUninit;
use vstd::layout::{align_of, size_of};
use vstd::prelude::*;
use vstd::raw_ptr::MemContents;
use vstd::std_specs::maybe_uninit::MaybeUninitAdditionalSpecFns;

use crate::allocator::{AllocError, Allocator};
use crate::layout::{array_fits, Layout};

verus! {

/// The error of an access outside `[0, len)`.
#[derive(Debug, Clone, Copy, PartialEq, Eq, Structural)]
pub struct OutOfBounds {
    pub index: usize,
    pub len: usize,
}

/// An owning handle over `len` contiguous elements of `T`, whose block was
/// reserved from `allocator` and is given back to it by [`ManagedSlice::release`].
///
/// The block's address, its layout and the length never change after
/// construction; only the elements can be written. The elements live in a
/// `Vec` that stands for the block's contents; the address is the token that
/// names the block when it is given back.
///
/// Release is explicit: the handle is consumed by `release`, so a block is
/// given back at most once, and never for a construction that failed.
#[derive(Debug)]
pub struct ManagedSlice<T, A> where A: Allocator {
    items: Vec<T>,
    addr: usize,
    layout: Layout,
    allocator: A,
}

impl<T, A> View for ManagedSlice<T, A> where A: Allocator {
    type V = Seq<T>;

    closed spec fn view(&self) -> Seq<T> {
        self.items@
    }
}

impl<T, A> ManagedSlice<T, A> where A: Allocator {
    /// The start address that the allocator returned for the block.
    pub closed spec fn addr(&self) -> usize {
        self.addr
    }

    /// The layout with which the block was reserved, and will be released.
    pub closed spec fn layout(&self) -> Layout {
        self.layout
    }

    /// The allocator that reserved the block.
    pub closed spec fn allocator(&self) -> A {
        self.allocator
    }

    /// Reserves a block for `len` elements of `T` from `allocator`, leaving
    /// the elements uninitialized.
    ///
    /// Fails with `AllocError`, without asking the allocator, when `len`
    /// elements of `T` make a block that cannot be described; fails too when
    /// the allocator declines. On failure no handle exists and the allocator
    /// is dropped. On success the allocator was asked exactly once, for the
    /// handle's layout, and answered with the handle's address; nothing was
    /// given back to it.
    pub fn new_uninit_in(len: usize, allocator: A) -> (r: Result<
        ManagedSlice<MaybeUninit<T>, A>,
        AllocError,
    >)
        ensures
            !array_fits::<T>(len as nat) ==> r is Err,
            r matches Ok(s) ==> {
                &&& array_fits::<T>(len as nat)
                &&& s@.len() == len
                &&& forall|i: int| 0 <= i < len ==> #[trigger] s@[i].mem_contents() is Uninit
                &&& s.layout().spec_size() == len * size_of::<T>()
                &&& s.layout().spec_align() == align_of::<T>()
                &&& s.allocator().requests() == allocator.requests().push(
                    (s.layout(), Ok(s.addr())),
                )
                &&& s.allocator().released() == allocator.released()
            },
    {
        let layout = match Layout::array::<T>(len) {
            Ok(l) => l,
            Err(e) => return Err(e),
        };
        let mut allocator = allocator;
        let granted = allocator.allocate(layout);
        Self::uninit_granted(len, layout, granted, allocator)
    }

    /// Builds the uninitialized handle from the allocator's answer to a
    /// request for `layout`: an error stays an error; an address gets `len`
    /// uninitialized slots. The answer must be the allocator's latest one,
    /// to a request for `len` elements of `T`.
    pub fn uninit_granted(
        len: usize,
        layout: Layout,
        granted: Result<usize, AllocError>,
        allocator: A,
    ) -> (r: Result<ManagedSlice<MaybeUninit<T>, A>, AllocError>)
        requires
            layout.spec_size() == len * size_of::<T>(),
            layout.spec_align() == align_of::<T>(),
            allocator.requests().len() > 0,
            allocator.requests().last() == (layout, granted),
        ensures
            r is Ok <==> granted is Ok,
            r matches Ok(s) ==> {
                &&& s@.len() == len
                &&& forall|i: int| 0 <= i < len ==> #[trigger] s@[i].mem_contents() is Uninit
                &&& Ok::<usize, AllocError>(s.addr()) == granted
                &&& s.layout() == layout
                &&& s.allocator() == allocator
            },
    {
        match granted {
            Ok(addr) => {
                let mut items: Vec<MaybeUninit<T>> = Vec::new();
                let mut i: usize = 0;
                while i < len
                    invariant
                        i <= len,
                        items@.len() == i,
                        forall|j: int| 0 <= j < i ==> #[trigger] items@[j].mem_contents() is Uninit,
                    decreases len - i,
                {
                    items.push(MaybeUninit::uninit());
                    i = i + 1;
                }
                Ok(ManagedSlice { items, addr, layout, allocator })
            },
            Err(e) => Err(e),
        }
    }

    /// The number of elements.
    pub fn len(&self) -> (r: usize)
        ensures
            r == self@.len(),
    {
        self.items.len()
    }

    /// Whether the handle holds no element.
    pub fn is_empty(&self) -> (r: bool)
        ensures
            r == (self@.len() == 0),
    {
        self.items.len() == 0
    }

    /// The elements, as a read view bounded by `len`.
    pub fn as_slice(&self) -> (r: &[T])
        ensures
            r@ == self@,
    {
        self.items.as_slice()
    }

    /// The elements, as a mutable view bounded by `len`: writes through it
    /// change the elements and nothing else.
    pub fn as_mut_slice(&mut self) -> (r: &mut [T])
        ensures
            r@ == old(self)@,
            final(r)@ == final(self)@,
            final(self).addr() == old(self).addr(),
            final(self).layout() == old(self).layout(),
            final(self).allocator() == old(self).allocator(),
    {
        self.items.as_mut_slice()
    }

    /// The element at `index`, or `None` when `index` is not below `len`.
    pub fn get(&self, index: usize) -> (r: Option<&T>)
        ensures
            index < self@.len() ==> r == Some(&self@[index as int]),
            index >= self@.len() ==> r is None,
    {
        if index < self.items.len() {
            Some(&self.items[index])
        } else {
            None
        }
    }

    /// The element at `index`, which must be below `len`.
    pub fn at(&self, index: usize) -> (r: &T)
        requires
            index < self@.len(),
        ensures
            *r == self@[index as int],
    {
        &self.items[index]
    }

    /// Writes `value` at `index`. An index not below `len` is refused with
    /// `OutOfBounds`, and nothing changes.
    pub fn set(&mut self, index: usize, value: T) -> (r: Result<(), OutOfBounds>)
        ensures
            r is Ok <==> index < old(self)@.len(),
            r is Ok ==> final(self)@ == old(self)@.update(index as int, value),
            r matches Err(e) ==> e == (OutOfBounds { index, len: old(self)@.len() as usize })
                && final(self)@ == old(self)@,
            final(self).addr() == old(self).addr(),
            final(self).layout() == old(self).layout(),
            final(self).allocator() == old(self).allocator(),
    {
        let len = self.items.len();
        if index < len {
            self.items.set(index, value);
            Ok(())
        } else {
            Err(OutOfBounds { index, len })
        }
    }

    /// Gives the block back to the allocator that reserved it, with the
    /// layout it was reserved with, and returns that allocator. The handle is
    /// consumed, so this happens once per handle.
    pub fn release(self) -> (r: A)
        ensures
            r.released() == self.allocator().released().push((self.addr(), self.layout())),
            r.requests() == self.allocator().requests(),
    {
        let ManagedSlice { items: _, addr, layout, mut allocator } = self;
        allocator.deallocate(addr, layout);
        allocator
    }
}

impl<T, A> ManagedSlice<T, A> where T: Copy, A: Allocator {
    /// Reserves a block for `len` elements of `T` from `allocator` and sets
    /// every element to `value`.
    ///
    /// Fails with `AllocError`, without asking the allocator, when `len`
    /// elements of `T` make a block that cannot be described; fails too when
    /// the allocator declines, and then no element is written. On failure no
    /// handle exists and the allocator is dropped. On success the allocator
    /// was asked exactly once, for the handle's layout, and answered with the
    /// handle's address; nothing was given back to it.
    pub fn new_in(len: usize, value: T, allocator: A) -> (r: Result<Self, AllocError>)
        ensures
            !array_fits::<T>(len as nat) ==> r is Err,
            r matches Ok(s) ==> {
                &&& array_fits::<T>(len as nat)
                &&& s@ == Seq::new(len as nat, |_i: int| value)
                &&& s.layout().spec_size() == len * size_of::<T>()
                &&& s.layout().spec_align() == align_of::<T>()
                &&& s.allocator().requests() == allocator.requests().push(
                    (s.layout(), Ok(s.addr())),
                )
                &&& s.allocator().released() == allocator.released()
            },
    {
        let layout = match Layout::array::<T>(len) {
            Ok(l) => l,
            Err(e) => return Err(e),
        };
        let mut allocator = allocator;
        let granted = allocator.allocate(layout);
        Self::fill_granted(len, value, layout, granted, allocator)
    }

    /// Builds the handle from the allocator's answer to a request for
    /// `layout`: an error stays an error and nothing is written; an address
    /// gets `len` copies of `value`. The answer must be the allocator's
    /// latest one, to a request for `len` elements of `T`.
    pub fn fill_granted(
        len: usize,
        value: T,
        layout: Layout,
        granted: Result<usize, AllocError>,
        allocator: A,
    ) -> (r: Result<Self, AllocError>)
        requires
            layout.spec_size() == len * size_of::<T>(),
            layout.spec_align() == align_of::<T>(),
            allocator.requests().len() > 0,
            allocator.requests().last() == (layout, granted),
        ensures
            r is Ok <==> granted is Ok,
            r matches Ok(s) ==> {
                &&& s@ == Seq::new(len as nat, |_i: int| value)
                &&& Ok::<usize, AllocError>(s.addr()) == granted
                &&& s.layout() == layout
                &&& s.allocator() == allocator
            },
    {
        match granted {
            Ok(addr) => {
                let mut items: Vec<T> = Vec::new();
                let mut i: usize = 0;
                while i < len
                    invariant
                        i <= len,
                        items@ == Seq::new(i as nat, |_i: int| value),
                    decreases len - i,
                {
                    items.push(value);
                    i = i + 1;
                    proof {
                        assert(items@ =~= Seq::new(i as nat, |_i: int| value));
                    }
                }
                Ok(ManagedSlice { items, addr, layout, allocator })
            },
            Err(e) => Err(e),
        }
    }
}

impl<T, A> core::ops::Deref for ManagedSlice<T, A> where A: Allocator {
    type Target = [T];

    fn deref(&self) -> (r: &[T])
        ensures
            r@ == self@,
    {
        self.as_slice()
    }
}

impl<T, A> core::ops::DerefMut for ManagedSlice<T, A> where A: Allocator {
    fn deref_mut(&mut self) -> (r: &mut [T])
        ensures
            r@ == old(self)@,
            final(r)@ == final(self)@,
            final(self).addr() == old(self).addr(),
            final(self).layout() == old(self).layout(),
            final(self).allocator() == old(self).allocator(),
    {
        self.as_mut_slice()
    }
}

/// A handle built and then released leaves one new request and one new
/// release in the allocator's log, and they name the same block: the address
/// granted is the address given back, with an equal layout.
pub proof fn lemma_release_matches_grant<T, A: Allocator>(
    before: A,
    s: ManagedSlice<T, A>,
    after: A,
)
    requires
        s.allocator().requests() == before.requests().push((s.layout(), Ok(s.addr()))),
        s.allocator().released() == before.released(),
        after.released() == s.allocator().released().push((s.addr(), s.layout())),
        after.requests() == s.allocator().requests(),
    ensures
        after.requests().len() == before.requests().len() + 1,
        after.released().len() == before.released().len() + 1,
        after.requests().last() == (after.released().last().1, Ok::<usize, AllocError>(
            after.released().last().0,
        )),
        after.requests().drop_last() == before.requests(),
        after.released().drop_last() == before.released(),
{
    assert(after.requests().drop_last() =~= before.requests());
    assert(after.released().drop_last() =~= before.released());
}

/// Writing `value` at an index below `len` and then reading that index gives
/// `value` back; the length and every other element stay as they were.
pub proof fn lemma_read_after_write<T>(elems: Seq<T>, index: int, value: T)
    requires
        0 <= index < elems.len(),
    ensures
        elems.update(index, value).len() == elems.len(),
        elems.update(index, value)[index] == value,
        forall|j: int|
            0 <= j < elems.len() && j != index ==> #[trigger] elems.update(index, value)[j]
                == elems[j],
{
}

} // verus!
