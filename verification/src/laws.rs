//! What holds of the operations taken together, proved over the model that
//! their contracts speak of.

use crate::growth::requested;
use crate::model::{
    after_front, after_pop, capacity_after_push, compares_to, front, popped, seq_eq,
};
use vstd::prelude::*;
use vstd::std_specs::cmp::PartialEqSpec;

verus! {

/// The sequence after pushing each of `values` in turn, first to last, onto
/// `start`, every push succeeding.
pub open spec fn after_pushes<T>(start: Seq<T>, values: Seq<T>) -> Seq<T>
    decreases values.len(),
{
    if values.len() == 0 {
        start
    } else {
        after_pushes(start, values.drop_last()).push(values.last())
    }
}

/// The slot count after `k` successful pushes in a row onto `len` elements
/// in `cap` slots.
pub open spec fn capacity_after_pushes(len: nat, cap: nat, k: nat) -> nat
    decreases k,
{
    if k == 0 {
        cap
    } else {
        capacity_after_push((len + k - 1) as nat, capacity_after_pushes(len, cap, (k - 1) as nat))
    }
}

/// How many of those `k` pushes took a growth step.
pub open spec fn growth_steps(len: nat, cap: nat, k: nat) -> nat
    decreases k,
{
    if k == 0 {
        0
    } else {
        let before = capacity_after_pushes(len, cap, (k - 1) as nat);
        let step: nat = if len + k - 1 == before {
            1
        } else {
            0
        };
        growth_steps(len, cap, (k - 1) as nat) + step
    }
}

/// What is left to hand out after `i` steps of consuming iteration.
pub open spec fn after_fronts<T>(s: Seq<T>, i: nat) -> Seq<T>
    decreases i,
{
    if i == 0 {
        s
    } else {
        after_front(after_fronts(s, (i - 1) as nat))
    }
}

/// Successful pushes add their values at the end, in the order in which they
/// were pushed, and the length grows by the number of pushes.
pub proof fn lemma_pushes_keep_order<T>(start: Seq<T>, values: Seq<T>)
    ensures
        after_pushes(start, values) == start + values,
        after_pushes(start, values).len() == start.len() + values.len(),
    decreases values.len(),
{
    if values.len() > 0 {
        lemma_pushes_keep_order(start, values.drop_last());
        assert((start + values.drop_last()).push(values.last()) =~= start + values);
    } else {
        assert(start + values =~= start);
    }
}

/// From an empty container, the elements after successful pushes are exactly
/// the pushed values, in order, and the length is their number.
pub proof fn lemma_pushes_from_empty<T>(values: Seq<T>)
    ensures
        after_pushes(Seq::<T>::empty(), values) == values,
        after_pushes(Seq::<T>::empty(), values).len() == values.len(),
{
    lemma_pushes_keep_order(Seq::<T>::empty(), values);
    assert(Seq::<T>::empty() + values =~= values);
}

/// A pop right after a push hands back the pushed value and leaves the
/// elements, and so the length, as they were before the push.
pub proof fn lemma_pop_undoes_push<T>(s: Seq<T>, value: T)
    ensures
        popped(s.push(value)) == Some(value),
        after_pop(s.push(value)) == s,
        after_pop(s.push(value)).len() == s.len(),
{
    assert(s.push(value).drop_last() =~= s);
}

/// Once a container has been cleared, a pop finds nothing to remove and
/// leaves it empty.
pub proof fn lemma_pop_after_clear<T>()
    ensures
        popped(Seq::<T>::empty()) is None,
        after_pop(Seq::<T>::empty()) == Seq::<T>::empty(),
{
}

/// Each growth step adds exactly one slot: after `k` successful pushes the
/// slot count is the one before them plus the number of growth steps taken,
/// and every element has a slot.
pub proof fn lemma_growth_is_one_slot_per_step(len: nat, cap: nat, k: nat)
    requires
        len <= cap,
    ensures
        capacity_after_pushes(len, cap, k) == cap + growth_steps(len, cap, k),
        len + k <= capacity_after_pushes(len, cap, k),
        growth_steps(len, cap, k) <= k,
    decreases k,
{
    if k > 0 {
        lemma_growth_is_one_slot_per_step(len, cap, (k - 1) as nat);
    }
}

/// A growth step asks for a single slot beyond the counted ones: granted,
/// the room is for exactly `cap + 1` elements, and from a container whose
/// every slot is in use the request is for one element more, never for a
/// multiple of what is there.
pub proof fn lemma_growth_asks_for_one_slot(len: nat, cap: nat)
    requires
        len <= cap,
    ensures
        len + requested(len, cap) == cap + 1,
        len == cap ==> requested(len, cap) == 1,
{
}

/// Pushes that find a free slot take no growth step: while the elements fit
/// in the slots that are there, the slot count stays as it is.
pub proof fn lemma_no_growth_within_capacity(len: nat, cap: nat, k: nat)
    requires
        len + k <= cap,
    ensures
        capacity_after_pushes(len, cap, k) == cap,
        growth_steps(len, cap, k) == 0,
    decreases k,
{
    if k > 0 {
        lemma_no_growth_within_capacity(len, cap, (k - 1) as nat);
    }
}

/// From the empty container that owns no slots, `k` successful pushes in a
/// row take exactly `k` growth steps and end with exactly `k` slots: growth
/// never adds more than the one slot that is needed.
pub proof fn lemma_growth_from_empty(k: nat)
    ensures
        capacity_after_pushes(0, 0, k) == k,
        growth_steps(0, 0, k) == k,
    decreases k,
{
    if k > 0 {
        lemma_growth_from_empty((k - 1) as nat);
    }
}

/// Consuming iteration hands out the elements first to last and then reports
/// that none is left: after `i` steps the `i`-th element is next, and after
/// as many steps as there are elements, nothing is.
pub proof fn lemma_iteration_in_order<T>(s: Seq<T>, i: nat)
    ensures
        i < s.len() ==> front(after_fronts(s, i)) == Some(s[i as int]),
        i >= s.len() ==> front(after_fronts(s, i)) is None,
        i <= s.len() ==> after_fronts(s, i) == s.subrange(i as int, s.len() as int),
        i >= s.len() ==> after_fronts(s, i) == Seq::<T>::empty(),
    decreases i,
{
    if i > 0 {
        lemma_iteration_in_order(s, (i - 1) as nat);
        let prev = after_fronts(s, (i - 1) as nat);
        if i <= s.len() {
            assert(prev.drop_first() =~= s.subrange(i as int, s.len() as int));
        }
    } else {
        assert(s.subrange(0, s.len() as int) =~= s);
    }
    if i >= s.len() {
        assert(after_fronts(s, i) =~= Seq::<T>::empty());
    }
}

/// Equality of sequences is reflexive wherever the elements' own `==` is.
pub proof fn lemma_eq_reflexive<T: PartialEq>(a: Seq<T>)
    requires
        forall|x: T| #[trigger] x.eq_spec(&x),
    ensures
        seq_eq(a, a),
{
}

/// Equality of sequences is symmetric wherever the elements' own `==` is.
pub proof fn lemma_eq_symmetric<T: PartialEq>(a: Seq<T>, b: Seq<T>)
    requires
        forall|x: T, y: T| #[trigger] x.eq_spec(&y) ==> y.eq_spec(&x),
    ensures
        seq_eq(a, b) == seq_eq(b, a),
{
    if seq_eq(a, b) {
        assert forall|i: int| 0 <= i < b.len() implies #[trigger] b[i].eq_spec(&a[i]) by {
            assert(a[i].eq_spec(&b[i]));
        }
    }
    if seq_eq(b, a) {
        assert forall|i: int| 0 <= i < a.len() implies #[trigger] a[i].eq_spec(&b[i]) by {
            assert(b[i].eq_spec(&a[i]));
        }
    }
}

/// Two sequences are unequal as soon as their lengths differ, or the
/// elements at any one index are unequal. On lengths that differ no
/// comparison can end in `true`, whatever the elements' own `==` answers.
pub proof fn lemma_eq_rejects<T: PartialEq>(a: Seq<T>, b: Seq<T>, i: int)
    ensures
        a.len() != b.len() ==> !seq_eq(a, b),
        a.len() != b.len() ==> !compares_to(a, b, true),
        0 <= i < a.len() && !a[i].eq_spec(&b[i]) ==> !seq_eq(a, b),
{
}

/// Where the elements' own `==` is plain equality of values, so is the
/// equality of sequences.
pub proof fn lemma_eq_is_equality<T: PartialEq>(a: Seq<T>, b: Seq<T>)
    requires
        forall|x: T, y: T| #[trigger] x.eq_spec(&y) <==> x == y,
    ensures
        seq_eq(a, b) <==> a == b,
{
    if seq_eq(a, b) {
        assert forall|i: int| 0 <= i < a.len() implies a[i] == b[i] by {
            assert(a[i].eq_spec(&b[i]));
        }
        assert(a =~= b);
    }
}

} // verus!
