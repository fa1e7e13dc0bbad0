//! The store in which blocks live, addressed by machine words.

use vstd::prelude::*;
use crate::block::ThinPrimer;

verus! {

/// One occupied place of the heap: the block, and the dispatch word that
/// the heap attached to it when the block moved in.
struct Slot<T: ?Sized> {
    table: usize,
    block: Box<ThinPrimer<T>>,
}

/// A store of blocks. Every block that moves in receives an address, which
/// is never null, and a dispatch word; the two together are the wide
/// pointer to the block. Addresses of blocks that have left are used again.
///
/// The dispatch word stands for the address of the dispatch table of the
/// value in the block. The heap numbers the blocks that move in and uses
/// the number; all that the rest of the crate relies on is that the word is
/// not null and stays with the block for as long as the block lives here.
pub struct Heap<T: ?Sized> {
    slots: Vec<Option<Slot<T>>>,
    free: Vec<usize>,
    issued: usize,
    occupied: Ghost<Set<usize>>,
}

impl<T: ?Sized> Heap<T> {
    /// The bookkeeping is consistent: the list of vacant places names each
    /// vacant place once and no occupied one, no dispatch word is null, and
    /// the addresses in use are those of the occupied places.
    pub closed spec fn wf(&self) -> bool {
        &&& self.free@.no_duplicates()
        &&& forall|i: int|
            0 <= i < self.free.len() ==> (#[trigger] self.free[i]) < self.slots.len()
                && self.slots[self.free[i] as int] is None
        &&& forall|j: int|
            0 <= j < self.slots.len() && (#[trigger] self.slots[j]) is None
                ==> self.free@.contains(j as usize)
        &&& forall|j: int|
            0 <= j < self.slots.len() && (#[trigger] self.slots[j]) is Some
                ==> self.slots[j]->0.table != 0
        &&& self.occupied@.finite()
        &&& forall|a: usize| #[trigger]
            self.occupied@.contains(a) <==> 0 < a <= self.slots.len() && self.slots[a - 1] is Some
        &&& self.occupied@.len() + self.free.len() == self.slots.len()
    }

    /// The addresses at which a block lives.
    pub closed spec fn dom(&self) -> Set<usize> {
        self.occupied@
    }

    /// A block lives at `addr`.
    pub open spec fn live(&self, addr: usize) -> bool {
        self.dom().contains(addr)
    }

    /// The dispatch word that the heap attached to the block at `addr`.
    pub closed spec fn table(&self, addr: usize) -> usize {
        self.slots[addr - 1]->0.table
    }

    /// The block at `addr`.
    pub closed spec fn block(&self, addr: usize) -> Box<ThinPrimer<T>> {
        self.slots[addr - 1]->0.block
    }

    /// How many blocks live in the heap.
    pub open spec fn live_count(&self) -> nat {
        self.dom().len()
    }

    /// One more block can move in without running out of addresses.
    pub closed spec fn has_room(&self) -> bool {
        self.free.len() > 0 || self.slots.len() < usize::MAX
    }

    /// The first word of the block at `addr`.
    pub open spec fn header(&self, addr: usize) -> usize {
        self.block(addr).header()
    }

    /// The value in the block at `addr`.
    pub open spec fn value(&self, addr: usize) -> &T {
        self.block(addr).payload()
    }

    /// The block at `addr` is complete: its first word is the dispatch word
    /// that the heap attached to it.
    pub open spec fn primed(&self, addr: usize) -> bool {
        self.live(addr) && self.header(addr) == self.table(addr)
    }

    /// The two heaps hold the same everywhere but at `addr`: a block lives
    /// at an address in the one if and only if a block lives there in the
    /// other, and then it is the same block under the same dispatch word.
    pub open spec fn same_except(&self, other: &Heap<T>, addr: usize) -> bool {
        &&& forall|a: usize| a != addr ==> #[trigger] self.live(a) == other.live(a)
        &&& forall|a: usize|
            a != addr && other.live(a) ==> #[trigger] self.table(a) == other.table(a)
        &&& forall|a: usize|
            a != addr && other.live(a) ==> #[trigger] self.block(a) == other.block(a)
    }

    /// The two heaps hold the same at every address.
    pub open spec fn same_as(&self, other: &Heap<T>) -> bool {
        &&& forall|a: usize| #[trigger] self.live(a) == other.live(a)
        &&& forall|a: usize| other.live(a) ==> #[trigger] self.table(a) == other.table(a)
        &&& forall|a: usize| other.live(a) ==> #[trigger] self.block(a) == other.block(a)
    }

    /// Only finitely many blocks live in a heap, none of them at null.
    pub proof fn lemma_dom(&self)
        requires
            self.wf(),
        ensures
            self.dom().finite(),
            !self.live(0),
    {
    }

    /// Emptying an occupied place and adding it to the list of vacant
    /// places keeps the bookkeeping consistent.
    proof fn lemma_vacated(&self, before: &Heap<T>, index: usize)
        requires
            before.wf(),
            index < before.slots.len(),
            before.slots[index as int] is Some,
            self.slots@ == before.slots@.update(index as int, None),
            self.free@ == before.free@.push(index),
            self.occupied@ == before.occupied@.remove((index + 1) as usize),
        ensures
            self.wf(),
    {
        let grown = self.free@;
        assert(grown.no_duplicates()) by {
            assert forall|i: int, j: int|
                0 <= i < grown.len() && 0 <= j < grown.len() && i != j
                implies grown[i] != grown[j] by {
                if i < before.free.len() {
                    assert(before.slots[before.free[i] as int] is None);
                }
                if j < before.free.len() {
                    assert(before.slots[before.free[j] as int] is None);
                }
            }
        }
        assert forall|j: int|
            0 <= j < self.slots.len() && (#[trigger] self.slots[j]) is None
            implies self.free@.contains(j as usize) by {
            if j == index {
                assert(self.free[self.free.len() - 1] == index);
            } else {
                assert(before.slots[j] is None);
                let k = before.free@.index_of(j as usize);
                assert(self.free[k] == j as usize);
            }
        }
        assert forall|i: int| 0 <= i < self.free.len() implies (#[trigger] self.free[i])
            < self.slots.len() && self.slots[self.free[i] as int] is None by {
            if i < before.free.len() {
                assert(self.free[i] == before.free[i]);
            }
        }
        assert(before.occupied@.contains((index + 1) as usize));
    }

    /// An empty heap.
    pub fn new() -> (heap: Heap<T>)
        ensures
            heap.wf(),
            heap.has_room(),
            heap.dom() == Set::<usize>::empty(),
    {
        Heap { slots: Vec::new(), free: Vec::new(), issued: 0, occupied: Ghost(Set::empty()) }
    }

    /// The number of blocks that live in the heap.
    pub fn len(&self) -> (count: usize)
        requires
            self.wf(),
        ensures
            count == self.live_count(),
    {
        self.slots.len() - self.free.len()
    }

    /// Whether one more block can move in.
    pub fn can_insert(&self) -> (room: bool)
        ensures
            room == self.has_room(),
    {
        self.free.len() > 0 || self.slots.len() < usize::MAX
    }

    /// Moves `block` into the heap and returns its address. The address was
    /// vacant before and is not null; the heap attaches a dispatch word to
    /// the block, which [`Heap::table_of`] reads. Nothing else changes.
    pub fn insert(&mut self, block: Box<ThinPrimer<T>>) -> (addr: usize)
        requires
            old(self).wf(),
            old(self).has_room(),
        ensures
            final(self).wf(),
            addr != 0,
            !old(self).live(addr),
            final(self).dom() == old(self).dom().insert(addr),
            final(self).block(addr) == block,
            final(self).same_except(old(self), addr),
            final(self).live_count() == old(self).live_count() + 1,
    {
        let table: usize = if self.issued == usize::MAX {
            1
        } else {
            self.issued + 1
        };
        self.issued = table;
        let ghost before = *self;
        let slot = Some(Slot { table, block });
        let addr: usize = if self.free.len() > 0 {
            let index: usize = self.free.pop().unwrap();
            proof {
                assert(before.free[before.free.len() - 1] == index);
            }
            self.slots[index] = slot;
            proof {
                assert forall|j: int|
                    0 <= j < self.slots.len() && (#[trigger] self.slots[j]) is None
                    implies self.free@.contains(j as usize) by {
                    assert(before.slots[j] is None);
                    let k = before.free@.index_of(j as usize);
                    assert(self.free[k] == j as usize);
                }
            }
            index + 1
        } else {
            self.slots.push(slot);
            self.slots.len()
        };
        proof {
            self.occupied@ = self.occupied@.insert(addr);
        }
        addr
    }

    /// The dispatch word that the heap attached to the block at `addr`.
    pub fn table_of(&self, addr: usize) -> (word: usize)
        requires
            self.wf(),
            self.live(addr),
        ensures
            word == self.table(addr),
            word != 0,
    {
        match &self.slots[addr - 1] {
            Some(slot) => slot.table,
            None => unreached(),
        }
    }

    /// Reads the first word of the block at `addr`.
    pub fn read_header(&self, addr: usize) -> (word: usize)
        requires
            self.wf(),
            self.live(addr),
        ensures
            word == self.header(addr),
    {
        match &self.slots[addr - 1] {
            Some(slot) => slot.block.vtable(),
            None => unreached(),
        }
    }

    /// Overwrites the first word of the block at `addr`. The value in the
    /// block, its dispatch word and every other block stay as they are.
    pub fn write_header(&mut self, addr: usize, word: usize)
        requires
            old(self).wf(),
            old(self).live(addr),
        ensures
            final(self).wf(),
            final(self).header(addr) == word,
            final(self).value(addr) == old(self).value(addr),
            final(self).table(addr) == old(self).table(addr),
            final(self).same_except(old(self), addr),
            final(self).dom() == old(self).dom(),
    {
        match &mut self.slots[addr - 1] {
            Some(slot) => slot.block.set_vtable(word),
            None => {},
        }
    }

    /// Borrows the block at `addr`.
    pub fn get(&self, addr: usize) -> (block: &ThinPrimer<T>)
        requires
            self.wf(),
            self.live(addr),
        ensures
            block == self.block(addr),
    {
        match &self.slots[addr - 1] {
            Some(slot) => &*slot.block,
            None => unreached(),
        }
    }

    /// Borrows the block at `addr` for writing. Whatever the borrower leaves
    /// there is the block at `addr` afterwards; its dispatch word and every
    /// other block stay as they are.
    pub fn get_mut(&mut self, addr: usize) -> (block: &mut ThinPrimer<T>)
        requires
            old(self).wf(),
            old(self).live(addr),
        ensures
            &*block == old(self).block(addr),
            final(self).wf(),
            final(self).block(addr) == &*final(block),
            final(self).table(addr) == old(self).table(addr),
            final(self).same_except(old(self), addr),
            final(self).dom() == old(self).dom(),
    {
        match &mut self.slots[addr - 1] {
            Some(slot) => &mut *slot.block,
            None => unreached(),
        }
    }

    /// Takes the block at `addr` out of the heap. The address is vacant
    /// afterwards; nothing else changes.
    pub fn remove(&mut self, addr: usize) -> (block: Box<ThinPrimer<T>>)
        requires
            old(self).wf(),
            old(self).live(addr),
        ensures
            final(self).wf(),
            final(self).dom() == old(self).dom().remove(addr),
            block == old(self).block(addr),
            final(self).same_except(old(self), addr),
            final(self).live_count() == old(self).live_count() - 1,
            final(self).has_room(),
    {
        let ghost before = *self;
        let index: usize = addr - 1;
        let slot = self.slots[index].take();
        self.free.push(index);
        proof {
            self.occupied@ = self.occupied@.remove(addr);
            self.lemma_vacated(&before, index);
        }
        match slot {
            Some(slot) => slot.block,
            None => unreached(),
        }
    }

    /// Whether a block lives at `addr`.
    pub fn is_live(&self, addr: usize) -> (live: bool)
        requires
            self.wf(),
        ensures
            live == self.live(addr),
    {
        if addr == 0 || addr > self.slots.len() {
            false
        } else {
            self.slots[addr - 1].is_some()
        }
    }
}

} // verus!
