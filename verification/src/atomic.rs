//! A lock-free cell for at most one thin handle.

use vstd::prelude::*;
use core::marker::PhantomData;
use core::sync::atomic::AtomicUsize;
use core::sync::atomic::Ordering;
use crate::heap::Heap;
use crate::thin::ThinDst;

verus! {

/// One atomic machine word that holds a handle, or null for none. Handles
/// go in and come out by value: whoever gets one out of the cell is its
/// owner from then on.
///
/// The word can change under any number of threads between two calls, so
/// no contract here says what a call finds in the cell. What is known of a
/// cell for good is the word it was made with, [`AtomicDst::initial_word`].
/// What one exchange does with the word it finds is [`exchange`]; the
/// functions below are each one such exchange.
pub struct AtomicDst<T: ?Sized> {
    ptr: AtomicUsize,
    made_with: Ghost<usize>,
    _type: PhantomData<T>,
}

/// The word that stands for `opt` in a cell: null for none, else the
/// address that the handle holds.
pub open spec fn word_of<T: ?Sized>(opt: Option<ThinDst<T>>) -> usize {
    match opt {
        None => 0,
        Some(handle) => handle.addr(),
    }
}

/// One exchange on a cell that holds the word `stored`: the word of
/// `incoming` is left in the cell, and what `stored` stood for comes out.
pub open spec fn exchange<T: ?Sized>(stored: usize, incoming: Option<ThinDst<T>>) -> (
    usize,
    Option<ThinDst<T>>,
) {
    (word_of(incoming), ThinDst::<T>::nullable(stored))
}

/// The word in a cell that held `stored` after the exchanges that put in
/// `incoming`, one after the other.
pub open spec fn stored_after<T: ?Sized>(stored: usize, incoming: Seq<Option<ThinDst<T>>>) -> usize
    decreases incoming.len(),
{
    if incoming.len() == 0 {
        stored
    } else {
        stored_after(exchange(stored, incoming[0]).0, incoming.drop_first())
    }
}

/// What came out of a cell that held `stored`, exchange by exchange, while
/// `incoming` was put in, one after the other.
pub open spec fn returned<T: ?Sized>(stored: usize, incoming: Seq<Option<ThinDst<T>>>) -> Seq<
    Option<ThinDst<T>>,
>
    decreases incoming.len(),
{
    if incoming.len() == 0 {
        Seq::empty()
    } else {
        seq![exchange(stored, incoming[0]).1] + returned(
            exchange(stored, incoming[0]).0,
            incoming.drop_first(),
        )
    }
}

/// What ending `occupant` does to a heap. A handle that can be followed in
/// `before` has its block taken out, and nothing else changes; no handle,
/// and a handle that cannot be followed there, leave the heap as it is.
pub open spec fn reclaimed<T: ?Sized>(
    occupant: Option<ThinDst<T>>,
    before: &Heap<T>,
    after: &Heap<T>,
) -> bool {
    if occupant is Some && occupant->0.valid_in(before) {
        &&& after.dom() == before.dom().remove(occupant->0.addr())
        &&& after.same_except(before, occupant->0.addr())
    } else {
        after == before
    }
}

/// Turns an optional handle into the word that a cell stores for it.
pub fn opt_to_ptr<T: ?Sized>(opt: Option<ThinDst<T>>) -> (word: usize)
    ensures
        word == word_of(opt),
        word == 0 <==> opt is None,
{
    match opt {
        None => 0,
        Some(handle) => handle.into_ptr(),
    }
}

/// Ends what came out of a cell. A handle that can be followed in `heap` is
/// dropped there; no handle, and a handle that cannot be followed in
/// `heap`, leave the heap as it is.
pub fn reclaim<T: ?Sized>(occupant: Option<ThinDst<T>>, heap: &mut Heap<T>)
    requires
        old(heap).wf(),
    ensures
        final(heap).wf(),
        reclaimed(occupant, old(heap), final(heap)),
{
    if let Some(handle) = occupant {
        if handle.is_valid_in(heap) {
            handle.drop(heap);
        }
    }
}

impl<T: ?Sized> AtomicDst<T> {
    /// The word that the cell held when it was made. It says nothing of
    /// what the cell holds after an exchange.
    pub closed spec fn initial_word(&self) -> usize {
        self.made_with@
    }

    /// A cell that starts out holding `opt`: the word it is made with is
    /// null for none, else the address that the handle held.
    pub fn new(opt: Option<ThinDst<T>>) -> (cell: Self)
        ensures
            cell.initial_word() == word_of(opt),
            cell.initial_word() == 0 <==> opt is None,
    {
        let word: usize = opt_to_ptr(opt);
        AtomicDst { ptr: AtomicUsize::new(word), made_with: Ghost(word), _type: PhantomData }
    }

    /// Puts `opt` into the cell in one atomic exchange and returns what the
    /// cell held at that moment: what comes out is what [`exchange`] gives
    /// for the word that was found, whichever word that was. A handle that
    /// comes out is not null.
    pub fn swap_opt(&self, opt: Option<ThinDst<T>>, order: Ordering) -> (previous: Option<
        ThinDst<T>,
    >)
        ensures
            exists|stored: usize| previous == (#[trigger] exchange(stored, opt)).1,
            previous matches Some(handle) ==> handle.addr() != 0,
    {
        let incoming: usize = opt_to_ptr(opt);
        let stored: usize = self.ptr.swap(incoming, order);
        let previous = ThinDst::from_nullable_ptr(stored);
        proof {
            assert(previous == exchange(stored, opt).1);
            ThinDst::<T>::lemma_addr_of_at(stored);
        }
        previous
    }

    /// Puts `val` into the cell and returns what the cell held.
    pub fn swap(&self, val: ThinDst<T>, order: Ordering) -> (previous: Option<ThinDst<T>>)
        ensures
            exists|stored: usize| previous == (#[trigger] exchange(stored, Some(val))).1,
            previous matches Some(handle) ==> handle.addr() != 0,
    {
        self.swap_opt(Some(val), order)
    }

    /// Empties the cell and returns what it held.
    pub fn take(&self, order: Ordering) -> (previous: Option<ThinDst<T>>)
        ensures
            exists|stored: usize| previous == (#[trigger] exchange::<T>(stored, None)).1,
            previous matches Some(handle) ==> handle.addr() != 0,
    {
        self.swap_opt(None, order)
    }

    /// Ends the cell: takes out what it holds and ends that in `heap`, as
    /// [`reclaim`] does. A cell that is let go without this leaves its
    /// block in the heap.
    pub fn drain(self, heap: &mut Heap<T>)
        requires
            old(heap).wf(),
        ensures
            final(heap).wf(),
            exists|stored: usize|
                reclaimed((#[trigger] exchange::<T>(stored, None)).1, old(heap), final(heap)),
    {
        let occupant = self.take(Ordering::Acquire);
        let ghost stored = choose|stored: usize|
            occupant == (#[trigger] exchange::<T>(stored, None)).1;
        reclaim(occupant, heap);
        proof {
            assert(reclaimed(exchange::<T>(stored, None).1, old(heap), heap));
        }
    }
}

impl<T: ?Sized> Default for AtomicDst<T> {
    /// An empty cell.
    fn default() -> (cell: Self)
        ensures
            cell.initial_word() == 0,
    {
        Self::new(None)
    }
}

} // verus!
