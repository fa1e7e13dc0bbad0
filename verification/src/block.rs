//! The combined block: a dispatch word followed by the value it describes.

use vstd::prelude::*;
use crate::fat::{wide, FatPtr};
use crate::heap::Heap;
use crate::thin::ThinDst;

verus! {

/// A block in the making: the value, preceded by the word that will hold
/// the address of its dispatch table. The word is null until the block has
/// been turned into a thin handle.
pub struct ThinPrimer<T: ?Sized> {
    vtable: usize,
    val: T,
}

impl<T: ?Sized> ThinPrimer<T> {
    /// The word at the head of the block.
    pub closed spec fn header(&self) -> usize {
        self.vtable
    }

    /// The value that follows the header.
    pub closed spec fn payload(&self) -> &T {
        &self.val
    }

    /// Wraps `val` in a block whose header is still null.
    pub fn new(val: T) -> (primer: ThinPrimer<T>) where T: Sized
        ensures
            primer.header() == 0,
            primer.payload() == val,
    {
        ThinPrimer { vtable: 0, val }
    }

    /// Turns the boxed block into a thin handle. The block moves into
    /// `heap`; the dispatch word of the wide pointer that the heap gives for
    /// it is written over the null in the block's header, and the address
    /// alone is kept. The handle can be followed at once and leads to the
    /// value that was boxed; every other block of the heap stays as it is.
    ///
    /// The box has to be two words wide, which it is once the type of the
    /// value has been erased to a trait object or a slice.
    pub fn into_thin(self: Box<Self>, heap: &mut Heap<T>) -> (handle: ThinDst<T>)
        requires
            wide::<T>(),
            old(heap).wf(),
            old(heap).has_room(),
        ensures
            handle.valid_in(final(heap)),
            !old(heap).live(handle.addr()),
            final(heap).dom() == old(heap).dom().insert(handle.addr()),
            final(heap).value(handle.addr()) == self.payload(),
            final(heap).same_except(old(heap), handle.addr()),
            final(heap).live_count() == old(heap).live_count() + 1,
    {
        let fat = FatPtr::from_box(self, heap);
        heap.write_header(fat.data, fat.vtable);
        ThinDst::from_ptr(fat.data)
    }

    /// Reads the header word.
    pub fn vtable(&self) -> (word: usize)
        ensures
            word == self.header(),
    {
        self.vtable
    }

    /// Overwrites the header word and leaves the value alone.
    pub(crate) fn set_vtable(&mut self, word: usize)
        ensures
            final(self).header() == word,
            final(self).payload() == old(self).payload(),
    {
        self.vtable = word;
    }

    /// Borrows the value.
    pub fn value(&self) -> (val: &T)
        ensures
            val == self.payload(),
    {
        &self.val
    }

    /// Borrows the value for writing. The header cannot be reached this way.
    pub fn value_mut(&mut self) -> (val: &mut T)
        ensures
            &*val == old(self).payload(),
            final(self).payload() == &*final(val),
            final(self).header() == old(self).header(),
    {
        &mut self.val
    }
}

} // verus!
