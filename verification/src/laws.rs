//! What holds across calls: of handles and the values behind them, of the
//! heap over the life of a block, and of the exchanges on a cell.

use vstd::prelude::*;
use crate::atomic::{exchange, returned, stored_after, word_of, AtomicDst};
use crate::block::ThinPrimer;
use crate::heap::Heap;
use crate::thin::ThinDst;

verus! {

/// Every optional handle in `incoming` that is a handle is not null.
pub open spec fn all_non_null<T: ?Sized>(incoming: Seq<Option<ThinDst<T>>>) -> bool {
    forall|i: int|
        0 <= i < incoming.len() ==> ((#[trigger] incoming[i]) matches Some(handle)
            ==> handle.addr() != 0)
}

/// A block that was turned into a handle is found again behind the handle.
/// The premises are what [`ThinPrimer::into_thin`] ensures of the heap
/// `after` it and of the handle it gives, and what [`ThinDst::deref`]
/// ensures of the value `found` behind that handle. The value found is the
/// value that was boxed, and a handle that could be followed before can
/// still be followed, to the same value.
pub proof fn law_round_trip<T: ?Sized>(
    block: Box<ThinPrimer<T>>,
    before: &Heap<T>,
    after: &Heap<T>,
    handle: ThinDst<T>,
    found: &T,
    other: ThinDst<T>,
)
    requires
        handle.valid_in(after),
        !before.live(handle.addr()),
        after.dom() == before.dom().insert(handle.addr()),
        after.value(handle.addr()) == block.payload(),
        after.same_except(before, handle.addr()),
        found == after.value(handle.addr()),
    ensures
        found == block.payload(),
        after.header(handle.addr()) == after.table(handle.addr()),
        other.valid_in(before) ==> other.addr() != handle.addr() && other.valid_in(after)
            && after.value(other.addr()) == before.value(other.addr()),
{
}

/// The word of an optional handle stands for that optional handle, and
/// the word that stands for what a word stands for is the word itself.
pub proof fn law_word_round_trip<T: ?Sized>(opt: Option<ThinDst<T>>, word: usize)
    requires
        opt matches Some(handle) ==> handle.addr() != 0,
    ensures
        ThinDst::<T>::nullable(word_of(opt)) == opt,
        word_of(ThinDst::<T>::nullable(word)) == word,
{
    ThinDst::<T>::lemma_addr_of_at(word);
    if let Some(handle) = opt {
        ThinDst::<T>::lemma_at_of_addr(handle);
    }
}

/// Nothing comes out of a cell that was made empty, be it by
/// [`AtomicDst::new`] or by default, when the first exchange on it is one
/// that takes: the exchange finds the word that the cell was made with.
pub proof fn law_empty_cell_gives_none<T: ?Sized>(cell: AtomicDst<T>)
    requires
        cell.initial_word() == word_of::<T>(None),
    ensures
        exchange::<T>(cell.initial_word(), None).1 is None,
        exchange::<T>(cell.initial_word(), None).0 == word_of::<T>(None),
{
}

/// An empty cell gives nothing for the handle that is put in; the next
/// exchange that empties the cell gives that handle back; the one after it
/// gives nothing.
pub proof fn law_occupy_then_drain<T: ?Sized>(handle: ThinDst<T>)
    requires
        handle.addr() != 0,
    ensures
        ({
            let empty = word_of::<T>(None);
            let occupied = exchange(empty, Some(handle));
            let drained = exchange::<T>(occupied.0, None);
            let again = exchange::<T>(drained.0, None);
            &&& occupied.1 is None
            &&& drained.1 == Some(handle)
            &&& again.1 is None
        }),
{
    law_word_round_trip(Some(handle), 0);
}

/// Nothing is lost and nothing comes twice. Whatever a run of exchanges
/// gave out, followed by what a last emptying of the cell gives, is what
/// the cell held at first followed by what was put in, in the same order.
/// So the handles that came out are, as a multiset, the handles that went
/// in and the one that was there.
pub proof fn law_exchanges_conserve<T: ?Sized>(stored: usize, incoming: Seq<Option<ThinDst<T>>>)
    requires
        all_non_null(incoming),
    ensures
        returned(stored, incoming).push(exchange::<T>(stored_after(stored, incoming), None).1)
            == seq![ThinDst::<T>::nullable(stored)] + incoming,
        returned(stored, incoming).push(
            exchange::<T>(stored_after(stored, incoming), None).1,
        ).to_multiset() == incoming.to_multiset().insert(ThinDst::<T>::nullable(stored)),
        returned(stored, incoming).len() == incoming.len(),
    decreases incoming.len(),
{
    let out = returned(stored, incoming).push(
        exchange::<T>(stored_after(stored, incoming), None).1,
    );
    let expected = seq![ThinDst::<T>::nullable(stored)] + incoming;
    if incoming.len() == 0 {
        assert(out =~= expected);
    } else {
        let next = exchange(stored, incoming[0]).0;
        let rest = incoming.drop_first();
        assert(all_non_null(rest)) by {
            assert forall|i: int| 0 <= i < rest.len() implies ((#[trigger] rest[i]) matches Some(
                handle,
            ) ==> handle.addr() != 0) by {
                assert(rest[i] == incoming[i + 1]);
            }
        }
        law_exchanges_conserve(next, rest);
        law_word_round_trip(incoming[0], 0);
        assert(ThinDst::<T>::nullable(next) == incoming[0]);
        assert(out =~= expected);
    }
    assert(expected =~= incoming.insert(0, ThinDst::<T>::nullable(stored)));
    vstd::seq_lib::to_multiset_insert(incoming, 0, ThinDst::<T>::nullable(stored));
}

/// A handle ends once: when its block has left the heap, no handle that
/// holds the address can be followed there, so none can be ended again.
pub proof fn law_drop_ends_handle<T: ?Sized>(
    before: &Heap<T>,
    after: &Heap<T>,
    handle: ThinDst<T>,
    other: ThinDst<T>,
)
    requires
        after.dom() == before.dom().remove(handle.addr()),
        other.addr() == handle.addr(),
    ensures
        !after.live(handle.addr()),
        !handle.valid_in(after),
        !other.valid_in(after),
{
}

/// A heap is the same after a block has been built in it and dropped again:
/// every address holds what it held, and as many blocks live in it.
pub proof fn law_build_drop_balanced<T: ?Sized>(
    before: &Heap<T>,
    built: &Heap<T>,
    after: &Heap<T>,
    addr: usize,
)
    requires
        !before.live(addr),
        built.dom() == before.dom().insert(addr),
        built.same_except(before, addr),
        after.dom() == built.dom().remove(addr),
        after.same_except(built, addr),
    ensures
        after.dom() == before.dom(),
        after.same_as(before),
        after.live_count() == before.live_count(),
{
    assert(after.dom() =~= before.dom());
}

} // verus!
