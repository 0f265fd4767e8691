//! The mathematical model that the contracts speak of: sequences of
//! elements and slot counts.

use crate::zeroed::Zeroed;
use vstd::prelude::*;
use vstd::std_specs::cmp::PartialEqSpec;

verus! {

/// The capacity after a successful push onto `len` elements in `cap` slots:
/// one growth step if every slot is in use, none otherwise.
pub open spec fn capacity_after_push(len: nat, cap: nat) -> nat {
    if len == cap {
        cap + 1
    } else {
        cap
    }
}

/// What a pop hands out: the last element, or nothing from an empty sequence.
pub open spec fn popped<T>(s: Seq<T>) -> Option<T> {
    if s.len() == 0 {
        None
    } else {
        Some(s.last())
    }
}

/// What a pop leaves behind.
pub open spec fn after_pop<T>(s: Seq<T>) -> Seq<T> {
    if s.len() == 0 {
        s
    } else {
        s.drop_last()
    }
}

/// What consuming iteration hands out next: the first element, or nothing
/// once none is left.
pub open spec fn front<T>(s: Seq<T>) -> Option<T> {
    if s.len() == 0 {
        None
    } else {
        Some(s.first())
    }
}

/// What is left to hand out after that.
pub open spec fn after_front<T>(s: Seq<T>) -> Seq<T> {
    if s.len() == 0 {
        s
    } else {
        s.drop_first()
    }
}

/// Equality of two sequences, element by element: the same length, and each
/// pair of elements at the same index equal by the elements' own `==`.
pub open spec fn seq_eq<T: PartialEq>(a: Seq<T>, b: Seq<T>) -> bool {
    &&& a.len() == b.len()
    &&& forall|i: int| 0 <= i < a.len() ==> #[trigger] a[i].eq_spec(&b[i])
}

/// Whether the elements' own `==`, asked about the pair at index `i`, may
/// answer `verdict`.
pub open spec fn answers<T: PartialEq>(a: Seq<T>, b: Seq<T>, i: int, verdict: bool) -> bool {
    call_ensures(T::eq, (&a[i], &b[i]), verdict)
}

/// Whether a comparison in index order that stops at the first unequal pair
/// may end in `r`: in `true` after all pairs have answered equal, in
/// `false` on lengths that differ or at the first pair that answers unequal.
pub open spec fn compares_to<T: PartialEq>(a: Seq<T>, b: Seq<T>, r: bool) -> bool {
    if r {
        &&& a.len() == b.len()
        &&& forall|i: int| 0 <= i < a.len() ==> #[trigger] answers(a, b, i, true)
    } else {
        ||| a.len() != b.len()
        ||| exists|i: int|
            {
                &&& 0 <= i < a.len()
                &&& #[trigger] answers(a, b, i, false)
                &&& forall|j: int| 0 <= j < i ==> #[trigger] answers(a, b, j, true)
            }
    }
}

/// `n` all-zero elements.
pub open spec fn zeros<T: Zeroed>(n: nat) -> Seq<T> {
    Seq::new(n, |i: int| T::zero())
}

} // verus!
