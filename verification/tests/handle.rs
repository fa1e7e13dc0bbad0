use std::cell::Cell;
use std::mem::size_of;
use std::rc::Rc;
use thin_dst::{is_wide, FatPtr, Heap, ThinDst, ThinPrimer};

struct Counted {
    drops: Rc<Cell<usize>>,
    label: &'static str,
}

impl Drop for Counted {
    fn drop(&mut self) {
        self.drops.set(self.drops.get() + 1);
    }
}

trait Labelled {
    fn label(&self) -> &'static str;
}

impl Labelled for Counted {
    fn label(&self) -> &'static str {
        self.label
    }
}

#[test]
fn round_trip_keeps_value() {
    let mut heap: Heap<dyn ToString> = Heap::new();
    let number: Box<ThinPrimer<dyn ToString>> = Box::new(ThinPrimer::new(42u64));
    let text: Box<ThinPrimer<dyn ToString>> = Box::new(ThinPrimer::new(String::from("seven")));
    let letter: Box<ThinPrimer<dyn ToString>> = Box::new(ThinPrimer::new('x'));
    let number = number.into_thin(&mut heap);
    let text = text.into_thin(&mut heap);
    let letter = letter.into_thin(&mut heap);
    assert_eq!(number.deref(&heap).to_string(), "42");
    assert_eq!(text.deref(&heap).to_string(), "seven");
    assert_eq!(letter.deref(&heap).to_string(), "x");
}

#[test]
fn round_trip_keeps_slice() {
    let mut heap: Heap<[u8]> = Heap::new();
    let short: Box<ThinPrimer<[u8]>> = Box::new(ThinPrimer::new([1u8, 2, 3]));
    let long: Box<ThinPrimer<[u8]>> = Box::new(ThinPrimer::new([9u8; 100]));
    let short = short.into_thin(&mut heap);
    let long = long.into_thin(&mut heap);
    assert_eq!(short.deref(&heap), &[1u8, 2, 3][..]);
    assert_eq!(long.deref(&heap).len(), 100);
    assert_eq!(long.deref(&heap)[99], 9);
}

#[test]
fn handle_is_one_word() {
    assert_eq!(size_of::<ThinDst<dyn ToString>>(), size_of::<usize>());
    assert_eq!(size_of::<ThinDst<[u8]>>(), size_of::<usize>());
    assert_eq!(size_of::<ThinDst<str>>(), size_of::<usize>());
    assert_eq!(std::mem::align_of::<ThinDst<dyn ToString>>(), std::mem::align_of::<usize>());
    assert_eq!(size_of::<FatPtr>(), 2 * size_of::<usize>());
    assert_eq!(size_of::<Box<dyn ToString>>(), size_of::<FatPtr>());
}

#[test]
fn drop_runs_destructor_once() {
    let drops = Rc::new(Cell::new(0));
    let mut heap: Heap<dyn Labelled> = Heap::new();
    let boxed: Box<ThinPrimer<dyn Labelled>> =
        Box::new(ThinPrimer::new(Counted { drops: drops.clone(), label: "only" }));
    let handle = boxed.into_thin(&mut heap);
    assert_eq!(handle.deref(&heap).label(), "only");
    assert_eq!(drops.get(), 0);
    handle.drop(&mut heap);
    assert_eq!(drops.get(), 1);
    assert_eq!(heap.len(), 0);
    std::mem::drop(heap);
    assert_eq!(drops.get(), 1);
}

#[test]
fn deref_mut_writes_through() {
    let mut heap: Heap<[u32]> = Heap::new();
    let first: Box<ThinPrimer<[u32]>> = Box::new(ThinPrimer::new([1u32, 2, 3]));
    let second: Box<ThinPrimer<[u32]>> = Box::new(ThinPrimer::new([7u32]));
    let mut first = first.into_thin(&mut heap);
    let second = second.into_thin(&mut heap);
    first.deref_mut(&mut heap)[1] = 20;
    assert_eq!(first.deref(&heap), &[1u32, 20, 3][..]);
    assert_eq!(second.deref(&heap), &[7u32][..]);
    assert!(first.is_valid_in(&heap));
}

#[test]
fn header_holds_dispatch_word() {
    let mut heap: Heap<dyn ToString> = Heap::new();
    let boxed: Box<ThinPrimer<dyn ToString>> = Box::new(ThinPrimer::new(5i32));
    assert_eq!(boxed.vtable(), 0);
    let handle = boxed.into_thin(&mut heap);
    assert!(handle.is_valid_in(&heap));
    let addr = handle.into_ptr();
    assert_ne!(addr, 0);
    assert_ne!(heap.table_of(addr), 0);
    assert_eq!(heap.read_header(addr), heap.table_of(addr));
    let fat = heap.fat_ptr(addr);
    assert_eq!(fat.data, addr);
    assert_eq!(fat.vtable, heap.table_of(addr));
    assert_eq!(fat.to_ptr(&heap).value().to_string(), "5");
}

#[test]
fn unprimed_block_is_not_valid() {
    let mut heap: Heap<dyn ToString> = Heap::new();
    let boxed: Box<ThinPrimer<dyn ToString>> = Box::new(ThinPrimer::new(5i32));
    let fat = FatPtr::from_box(boxed, &mut heap);
    assert_ne!(fat.data, 0);
    assert_ne!(fat.vtable, 0);
    assert_eq!(heap.read_header(fat.data), 0);
    let handle: ThinDst<dyn ToString> = ThinDst::from_ptr(fat.data);
    assert!(!handle.is_valid_in(&heap));
    heap.write_header(fat.data, fat.vtable);
    assert!(handle.is_valid_in(&heap));
    assert_eq!(handle.deref(&heap).to_string(), "5");
}

#[test]
fn wide_pointer_round_trip() {
    let boxed: Box<ThinPrimer<[u64]>> = Box::new(ThinPrimer::new([77u64]));
    let mut numbers: Heap<[u64]> = Heap::new();
    let fat = FatPtr::from_box(boxed, &mut numbers);
    assert_eq!(fat.to_ptr(&numbers).value(), &[77u64][..]);
    fat.to_mut(&mut numbers).value_mut()[0] = 78;
    let back = FatPtr { data: fat.data, vtable: fat.vtable }.into_box(&mut numbers);
    assert_eq!(back.value(), &[78u64][..]);
    assert!(!numbers.is_live(fat.data));
    assert_eq!(numbers.len(), 0);
}

#[test]
fn null_word_is_no_handle() {
    let none: Option<ThinDst<dyn ToString>> = ThinDst::from_nullable_ptr(0);
    assert!(none.is_none());
    let some: Option<ThinDst<dyn ToString>> = ThinDst::from_nullable_ptr(24);
    assert_eq!(some.unwrap().into_ptr(), 24);
    let top: Option<ThinDst<[u8]>> = ThinDst::from_nullable_ptr(usize::MAX);
    assert_eq!(top.unwrap().into_ptr(), usize::MAX);
}

#[test]
fn address_round_trip() {
    let mut heap: Heap<dyn ToString> = Heap::new();
    let boxed: Box<ThinPrimer<dyn ToString>> = Box::new(ThinPrimer::new("kept"));
    let handle = boxed.into_thin(&mut heap);
    let addr = handle.into_ptr();
    let again: ThinDst<dyn ToString> = ThinDst::from_ptr(addr);
    assert_eq!(again.deref(&heap).to_string(), "kept");
    assert_eq!(again.primer_ptr(&heap).vtable(), heap.table_of(addr));
    assert_eq!(again.into_ptr(), addr);
}

fn is_send<T: Send>() -> bool {
    true
}

fn is_sync<T: Sync>() -> bool {
    true
}

#[test]
fn handle_is_send_and_sync_with_its_value() {
    assert!(is_send::<ThinDst<dyn ToString + Send>>());
    assert!(is_sync::<ThinDst<dyn ToString + Sync>>());
    assert!(is_send::<ThinDst<[u8]>>());
    assert!(is_sync::<thin_dst::AtomicDst<dyn ToString + Send + Sync>>());
}

#[test]
fn erased_blocks_are_wide() {
    assert!(is_wide::<dyn ToString>());
    assert!(is_wide::<dyn Labelled>());
    assert!(is_wide::<[u8]>());
    assert!(is_wide::<[u64]>());
    assert!(is_wide::<str>());
}

#[test]
fn sized_blocks_are_not_wide() {
    assert!(!is_wide::<u8>());
    assert!(!is_wide::<u32>());
    assert!(!is_wide::<u64>());
    assert!(!is_wide::<[u8; 16]>());
    assert!(!is_wide::<String>());
    assert!(!is_wide::<()>());
}

#[test]
fn handle_to_sized_block_is_not_valid() {
    let mut heap: Heap<u64> = Heap::new();
    let addr = heap.insert(Box::new(ThinPrimer::new(5u64)));
    heap.write_header(addr, heap.table_of(addr));
    let handle: ThinDst<u64> = ThinDst::from_ptr(addr);
    assert!(!handle.is_valid_in(&heap));
    assert_eq!(*heap.remove(addr).value(), 5);
}
