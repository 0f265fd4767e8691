//! How the container meets the rest of the language: its default value and
//! equality with containers, native vectors and native slices.

use crate::model::{answers, compares_to, seq_eq};
use crate::vec::Vec;
use vstd::prelude::*;
use vstd::std_specs::cmp::PartialEqSpec;

verus! {

/// Compares two slices in index order, stopping at the first pair that
/// differs.
pub fn slice_eq<T: PartialEq>(a: &[T], b: &[T]) -> (r: bool)
    ensures
        compares_to(a@, b@, r),
        T::obeys_eq_spec() ==> r == seq_eq(a@, b@),
{
    if a.len() != b.len() {
        return false;
    }
    let mut i: usize = 0;
    while i < a.len()
        invariant
            i <= a@.len(),
            a@.len() == b@.len(),
            forall|j: int| 0 <= j < i ==> #[trigger] answers(a@, b@, j, true),
            T::obeys_eq_spec() ==> forall|j: int| 0 <= j < i ==> #[trigger] a@[j].eq_spec(&b@[j]),
        decreases a@.len() - i,
    {
        if !(a[i] == b[i]) {
            assert(answers(a@, b@, i as int, false));
            return false;
        }
        assert(answers(a@, b@, i as int, true));
        i = i + 1;
    }
    true
}

impl<T> Default for Vec<T> {
    /// The empty container that owns no slots.
    fn default() -> (v: Vec<T>)
        ensures
            v@ == Seq::<T>::empty(),
            v.capacity() == 0,
    {
        Vec::new()
    }
}

impl<T: PartialEq> PartialEq for Vec<T> {
    /// Whether the live elements of the two containers are equal, in index
    /// order. Capacity plays no part.
    fn eq(&self, other: &Vec<T>) -> (r: bool)
        ensures
            compares_to(self@, other@, r),
    {
        slice_eq(self.as_slice(), other.as_slice())
    }
}

impl<T: PartialEq> vstd::std_specs::cmp::PartialEqSpecImpl for Vec<T> {
    open spec fn obeys_eq_spec() -> bool {
        T::obeys_eq_spec()
    }

    open spec fn eq_spec(&self, other: &Vec<T>) -> bool {
        seq_eq(self@, other@)
    }
}

impl<T: PartialEq> PartialEq<std::vec::Vec<T>> for Vec<T> {
    /// Whether the live elements equal those of a native vector, in index
    /// order.
    fn eq(&self, other: &std::vec::Vec<T>) -> (r: bool)
        ensures
            compares_to(self@, other@, r),
    {
        slice_eq(self.as_slice(), other.as_slice())
    }
}

impl<T: PartialEq> vstd::std_specs::cmp::PartialEqSpecImpl<std::vec::Vec<T>> for Vec<T> {
    open spec fn obeys_eq_spec() -> bool {
        T::obeys_eq_spec()
    }

    open spec fn eq_spec(&self, other: &std::vec::Vec<T>) -> bool {
        seq_eq(self@, other@)
    }
}

impl<'a, T: PartialEq> PartialEq<&'a [T]> for Vec<T> {
    /// Whether the live elements equal those of a native slice, in index
    /// order.
    fn eq(&self, other: &&'a [T]) -> (r: bool)
        ensures
            compares_to(self@, other@, r),
    {
        slice_eq(self.as_slice(), *other)
    }
}

impl<'a, T: PartialEq> vstd::std_specs::cmp::PartialEqSpecImpl<&'a [T]> for Vec<T> {
    open spec fn obeys_eq_spec() -> bool {
        T::obeys_eq_spec()
    }

    open spec fn eq_spec(&self, other: &&'a [T]) -> bool {
        seq_eq(self@, other@)
    }
}

} // verus!
