//! Thin handles to dynamically sized values.
//!
//! A reference to a value behind a trait object is normally two machine
//! words wide: the address of the value and the address of its dispatch
//! table. This crate keeps the dispatch word in the first word of the block
//! that holds the value, so that a handle to the block is a single word and
//! fits wherever one word is all there is, such as an atomic cell.
//!
//! Blocks live in a [`Heap`], which hands out word-sized addresses and the
//! wide pointers ([`FatPtr`]) that go with them. A [`ThinDst`] is such an
//! address together with the promise that it is not null; it is followed
//! by reading the dispatch word from the head of its block and putting the
//! wide pointer together again. An [`AtomicDst`] is a lock-free slot for at
//! most one handle.
//!
//! A value is boxed in a [`ThinPrimer`], its type is erased by the usual
//! unsizing of the box, and [`ThinPrimer::into_thin`] makes the handle:
//!
//! ```text
//! let mut heap: Heap<dyn ToString> = Heap::new();
//! let boxed: Box<ThinPrimer<dyn ToString>> = Box::new(ThinPrimer::new(42));
//! let handle = boxed.into_thin(&mut heap);
//! assert_eq!(handle.deref(&heap).to_string(), "42");
//! ```
//!
//! The scheme needs the box to be two machine words wide, which it is for
//! trait objects and slices and is not for a type with a size of its own.
//! [`is_wide`] tests it; the functions that take a wide pointer apart or
//! put one together ask for it.
//!
//! The module [`laws`] states what holds across several calls.

pub mod atomic;
pub mod block;
pub mod fat;
pub mod heap;
pub mod laws;
pub mod thin;

pub use atomic::AtomicDst;
pub use block::ThinPrimer;
pub use fat::{is_wide, FatPtr};
pub use heap::Heap;
pub use thin::ThinDst;
