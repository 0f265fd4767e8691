//! Consuming iteration: the elements of a container, handed out by value.

use crate::model::{after_front, front};
use crate::storage::into_deque;
use std::collections::VecDeque;
use vstd::prelude::*;

verus! {

/// The elements that a container held, front to back, owned by the iterator.
///
/// The view is what has not been handed out yet.
pub struct IntoIter<T> {
    items: VecDeque<T>,
}

impl<T> View for IntoIter<T> {
    type V = Seq<T>;

    closed spec fn view(&self) -> Seq<T> {
        self.items@
    }
}

impl<T> IntoIter<T> {
    /// Takes over the elements of `buf`, first to last.
    pub(crate) fn over(buf: std::vec::Vec<T>) -> (iter: IntoIter<T>)
        ensures
            iter@ == buf@,
    {
        IntoIter { items: into_deque(buf) }
    }
}

impl<T> Iterator for IntoIter<T> {
    type Item = T;

    /// Hands out the next element, or reports that none is left, from then
    /// on every time.
    fn next(&mut self) -> (r: Option<T>)
        ensures
            r == front(old(self)@),
            final(self)@ == after_front(old(self)@),
    {
        self.items.pop_front()
    }
}

impl<T> vstd::std_specs::iter::IteratorSpecImpl for IntoIter<T> {
    open spec fn obeys_prophetic_iter_laws(&self) -> bool {
        true
    }

    open spec fn remaining(&self) -> Seq<T> {
        self@
    }

    open spec fn will_return_none(&self) -> bool {
        true
    }

    open spec fn decrease(&self) -> Option<nat> {
        Some(self@.len())
    }

    open spec fn initial_value_relation(&self, init: &Self) -> bool {
        true
    }

    open spec fn peek(&self, index: int) -> Option<T> {
        None
    }
}

} // verus!
