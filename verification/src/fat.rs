//! The wide pointer and the two directions of its codec.

use vstd::prelude::*;
use crate::block::ThinPrimer;
use crate::heap::Heap;

verus! {

/// A wide pointer to a block, taken apart into its two machine words: the
/// address of the block and the address of the dispatch table of the value
/// in it. It owns nothing and is made anew for every access.
#[derive(Debug)]
pub struct FatPtr {
    pub data: usize,
    pub vtable: usize,
}

/// A pointer to a block of `T` is wide: a box of such a block takes as much
/// room as a [`FatPtr`], two machine words. It does where `T` is a trait
/// object or a slice. Where `T` has a size of its own the box is one word,
/// and it cannot be taken apart into two.
pub open spec fn wide<T: ?Sized>() -> bool {
    vstd::layout::size_of::<Box<ThinPrimer<T>>>() == vstd::layout::size_of::<FatPtr>()
}

/// Whether a pointer to a block of `T` is wide.
pub fn is_wide<T: ?Sized>() -> (w: bool)
    ensures
        w == wide::<T>(),
{
    core::mem::size_of::<Box<ThinPrimer<T>>>() == core::mem::size_of::<FatPtr>()
}

impl FatPtr {
    /// The pointer is one that `heap` itself would give for a block that
    /// lives in it: a block lives at `data`, and `vtable` is the dispatch
    /// word that the heap attached to that block.
    pub open spec fn points_into<T: ?Sized>(&self, heap: &Heap<T>) -> bool {
        heap.live(self.data) && self.vtable == heap.table(self.data)
    }

    /// Gives the block to `heap` and returns the two words of the wide
    /// pointer to it. The block is stored as it is; its header is not
    /// touched. The pointer to the block has to be two words wide.
    pub fn from_box<T: ?Sized>(obj: Box<ThinPrimer<T>>, heap: &mut Heap<T>) -> (fat: FatPtr)
        requires
            wide::<T>(),
            old(heap).wf(),
            old(heap).has_room(),
        ensures
            final(heap).wf(),
            fat.data != 0,
            fat.vtable != 0,
            !old(heap).live(fat.data),
            final(heap).dom() == old(heap).dom().insert(fat.data),
            fat.points_into(final(heap)),
            final(heap).block(fat.data) == obj,
            final(heap).same_except(old(heap), fat.data),
            final(heap).live_count() == old(heap).live_count() + 1,
    {
        let data: usize = heap.insert(obj);
        let vtable: usize = heap.table_of(data);
        FatPtr { data, vtable }
    }

    /// Puts the two words together again and follows the pointer.
    pub fn to_ptr<'a, T: ?Sized>(&self, heap: &'a Heap<T>) -> (block: &'a ThinPrimer<T>)
        requires
            wide::<T>(),
            heap.wf(),
            self.points_into(heap),
        ensures
            block == heap.block(self.data),
    {
        heap.get(self.data)
    }

    /// Puts the two words together again and follows the pointer for
    /// writing. Whatever the borrower leaves is the block at `data`
    /// afterwards; the pointer stays good.
    pub fn to_mut<'a, T: ?Sized>(&self, heap: &'a mut Heap<T>) -> (block: &'a mut ThinPrimer<T>)
        requires
            wide::<T>(),
            old(heap).wf(),
            self.points_into(old(heap)),
        ensures
            &*block == old(heap).block(self.data),
            final(heap).wf(),
            self.points_into(final(heap)),
            final(heap).block(self.data) == &*final(block),
            final(heap).same_except(old(heap), self.data),
            final(heap).dom() == old(heap).dom(),
    {
        heap.get_mut(self.data)
    }

    /// Puts the two words together again and takes the block back from
    /// `heap`, as the owning box it was before [`FatPtr::from_box`].
    pub fn into_box<T: ?Sized>(self, heap: &mut Heap<T>) -> (obj: Box<ThinPrimer<T>>)
        requires
            wide::<T>(),
            old(heap).wf(),
            self.points_into(old(heap)),
        ensures
            final(heap).wf(),
            final(heap).has_room(),
            final(heap).dom() == old(heap).dom().remove(self.data),
            obj == old(heap).block(self.data),
            final(heap).same_except(old(heap), self.data),
            final(heap).live_count() == old(heap).live_count() - 1,
    {
        heap.remove(self.data)
    }
}

impl<T: ?Sized> Heap<T> {
    /// Rebuilds the wide pointer to the block at `addr` from the address
    /// and the word that the block carries at its head.
    pub fn fat_ptr(&self, addr: usize) -> (fat: FatPtr)
        requires
            self.wf(),
            self.live(addr),
        ensures
            fat.data == addr,
            fat.vtable == self.header(addr),
    {
        FatPtr { data: addr, vtable: self.read_header(addr) }
    }
}

} // verus!
