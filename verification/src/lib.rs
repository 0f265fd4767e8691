//! A growable contiguous buffer with fallible, one-slot-at-a-time growth.
//!
//! Every operation that may need more memory reports an allocation failure to
//! its caller as `Err(())` instead of aborting; duplication with `Clone` is
//! the one exception. Capacity grows by exactly one slot per growth step,
//! never by more.

pub mod growth;
pub mod interop;
pub mod into_iter;
pub mod laws;
pub mod model;
pub mod sink;
mod storage;
pub mod vec;
pub mod view;
pub mod zeroed;

pub use into_iter::IntoIter;
pub use vec::Vec;
pub use zeroed::Zeroed;
