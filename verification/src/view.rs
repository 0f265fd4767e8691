//! Windows onto the live elements: slice coercion and borrowed iteration.
//!
//! With the coercion in place, `v[i]` on a container reads and writes the
//! slice, whose own bounds test applies.

use crate::vec::Vec;
use std::ops::{Deref, DerefMut};
use vstd::prelude::*;
use vstd::std_specs::iter::IteratorSpec;

verus! {

impl<T> Deref for Vec<T> {
    type Target = [T];

    /// The live elements, in order.
    fn deref(&self) -> (s: &[T])
        ensures
            s@ == self@,
    {
        self.as_slice()
    }
}

impl<T> DerefMut for Vec<T> {
    /// The live elements, in order, open to writing in place.
    fn deref_mut(&mut self) -> (s: &mut [T])
        ensures
            s@ == old(self)@,
            final(s)@.len() == s@.len(),
            final(self)@ == final(s)@,
            final(self).capacity() == old(self).capacity(),
    {
        self.as_mut_slice()
    }
}

impl<'a, T> IntoIterator for &'a Vec<T> {
    type Item = &'a T;

    type IntoIter = std::slice::Iter<'a, T>;

    /// Walks the live elements by reference, first to last.
    fn into_iter(self) -> (iter: std::slice::Iter<'a, T>)
        ensures
            iter.remaining() == self@.as_ref(),
    {
        broadcast use vstd::std_specs::slice::axiom_spec_slice_iter;
        self.as_slice().iter()
    }
}

} // verus!
