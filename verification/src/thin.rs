//! The one-word handle.

use vstd::prelude::*;
use core::marker::PhantomData;
use crate::block::ThinPrimer;
use crate::fat::{is_wide, wide};
use crate::heap::Heap;

verus! {

/// A handle to a block, one machine word wide: the address of the block.
/// It is never null. The dispatch word that a wide pointer would carry
/// beside the address is read from the head of the block on every access.
pub struct ThinDst<T: ?Sized> {
    ptr: usize,
    _type: PhantomData<T>,
}

impl<T: ?Sized> ThinDst<T> {
    #[verifier::type_invariant]
    spec fn non_null(self) -> bool {
        self.ptr != 0
    }

    /// The address that the handle holds.
    pub closed spec fn addr(&self) -> usize {
        self.ptr
    }

    /// The handle that holds `addr`.
    pub closed spec fn at(addr: usize) -> ThinDst<T> {
        ThinDst { ptr: addr, _type: PhantomData }
    }

    /// What a word stands for: nothing if it is null, else the handle that
    /// holds it.
    pub open spec fn nullable(word: usize) -> Option<ThinDst<T>> {
        if word == 0 {
            None
        } else {
            Some(Self::at(word))
        }
    }

    /// The handle can be followed in `heap`: pointers to blocks of `T` are
    /// wide, and the handle's block lives in `heap` and is complete.
    pub open spec fn valid_in(&self, heap: &Heap<T>) -> bool {
        wide::<T>() && heap.wf() && heap.primed(self.addr())
    }

    /// The handle that holds `addr` holds `addr`.
    pub proof fn lemma_addr_of_at(addr: usize)
        ensures
            Self::at(addr).addr() == addr,
    {
    }

    /// A handle is its address and nothing more.
    pub proof fn lemma_at_of_addr(handle: ThinDst<T>)
        ensures
            Self::at(handle.addr()) == handle,
    {
    }

    /// Reads a word as a handle, or as no handle if the word is null.
    pub fn from_nullable_ptr(ptr: usize) -> (handle: Option<Self>)
        ensures
            handle == Self::nullable(ptr),
            handle is None <==> ptr == 0,
            handle matches Some(h) ==> h.addr() == ptr,
    {
        if ptr == 0 {
            None
        } else {
            Some(Self::from_ptr(ptr))
        }
    }

    /// Takes `ptr` for the address of a block and the caller for its only
    /// owner.
    pub fn from_ptr(ptr: usize) -> (handle: Self)
        requires
            ptr != 0,
        ensures
            handle == Self::at(ptr),
            handle.addr() == ptr,
    {
        ThinDst { ptr, _type: PhantomData }
    }

    /// Gives the handle up for the address it holds.
    pub fn into_ptr(self) -> (ptr: usize)
        ensures
            ptr == self.addr(),
            ptr != 0,
    {
        proof {
            use_type_invariant(&self);
        }
        self.ptr
    }

    /// Whether the handle can be followed in `heap`.
    pub fn is_valid_in(&self, heap: &Heap<T>) -> (valid: bool)
        requires
            heap.wf(),
        ensures
            valid == self.valid_in(heap),
    {
        is_wide::<T>() && heap.is_live(self.ptr) && heap.read_header(self.ptr) == heap.table_of(
            self.ptr,
        )
    }

    /// Rebuilds the wide pointer from the address and the head of the
    /// block, and follows it to the block.
    pub fn primer_ptr<'a>(&self, heap: &'a Heap<T>) -> (block: &'a ThinPrimer<T>)
        requires
            self.valid_in(heap),
        ensures
            block == heap.block(self.addr()),
    {
        heap.fat_ptr(self.ptr).to_ptr(heap)
    }

    /// Borrows the value in the handle's block.
    pub fn deref<'a>(&self, heap: &'a Heap<T>) -> (val: &'a T)
        requires
            self.valid_in(heap),
        ensures
            val == heap.value(self.addr()),
    {
        self.primer_ptr(heap).value()
    }

    /// Borrows the value in the handle's block for writing. Whatever the
    /// borrower leaves is the value there afterwards; the block stays
    /// complete, and nothing else in the heap changes.
    pub fn deref_mut<'a>(&mut self, heap: &'a mut Heap<T>) -> (val: &'a mut T)
        requires
            old(self).valid_in(old(heap)),
        ensures
            *final(self) == *old(self),
            &*val == old(heap).value(old(self).addr()),
            final(heap).value(old(self).addr()) == &*final(val),
            old(self).valid_in(final(heap)),
            final(heap).table(old(self).addr()) == old(heap).table(old(self).addr()),
            final(heap).same_except(old(heap), old(self).addr()),
            final(heap).dom() == old(heap).dom(),
    {
        let fat = heap.fat_ptr(self.ptr);
        fat.to_mut(heap).value_mut()
    }

    /// Ends the handle: rebuilds the wide pointer one last time, takes the
    /// block out of `heap` and lets it go. The address is vacant
    /// afterwards, and nothing else in the heap changes.
    pub fn drop(self, heap: &mut Heap<T>)
        requires
            self.valid_in(old(heap)),
        ensures
            final(heap).wf(),
            final(heap).has_room(),
            final(heap).dom() == old(heap).dom().remove(self.addr()),
            final(heap).same_except(old(heap), self.addr()),
            final(heap).live_count() == old(heap).live_count() - 1,
    {
        let fat = heap.fat_ptr(self.ptr);
        let _block = fat.into_box(heap);
    }
}

} // verus!
