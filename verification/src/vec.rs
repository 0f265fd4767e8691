//! The container itself: construction, growth and the sequence operations.

use crate::growth::{request, settle};
use crate::into_iter::IntoIter;
use crate::model::{after_pop, capacity_after_push, popped, zeros};
use crate::storage::{as_mut_slice, try_reserve_exact};
use crate::zeroed::Zeroed;
use vstd::prelude::*;

verus! {

/// A growable buffer of `T`.
///
/// `buf` holds exactly the live elements, in order; `cap` counts the slots
/// that growth steps have been granted so far.
#[derive(Debug)]
pub struct Vec<T> {
    buf: std::vec::Vec<T>,
    cap: usize,
}

impl<T> View for Vec<T> {
    type V = Seq<T>;

    closed spec fn view(&self) -> Seq<T> {
        self.buf@
    }
}

impl<T> Vec<T> {
    #[verifier::type_invariant]
    spec fn inv(self) -> bool {
        self.buf@.len() <= self.cap
    }

    /// The number of slots granted so far.
    pub closed spec fn spec_capacity(&self) -> usize {
        self.cap
    }

    /// The number of live elements.
    pub open spec fn spec_len(&self) -> usize {
        self@.len() as usize
    }

    /// An empty container that owns no slots.
    pub fn new() -> (v: Vec<T>)
        ensures
            v@ == Seq::<T>::empty(),
            v.spec_capacity() == 0,
    {
        Vec { buf: std::vec::Vec::new(), cap: 0 }
    }

    /// The number of live elements.
    #[verifier::when_used_as_spec(spec_len)]
    pub fn len(&self) -> (n: usize)
        ensures
            n == self@.len(),
            n <= self.spec_capacity(),
    {
        proof {
            use_type_invariant(self);
        }
        self.buf.len()
    }

    /// The number of slots granted so far; never less than the length.
    #[verifier::when_used_as_spec(spec_capacity)]
    pub fn capacity(&self) -> (c: usize)
        ensures
            c == self.spec_capacity(),
            self@.len() <= c,
    {
        proof {
            use_type_invariant(self);
        }
        self.cap
    }

    /// One growth step: asks the allocator for room for exactly one more
    /// slot than the capacity counts, as `request` computes it, and counts
    /// the slot if the request was granted.
    fn resize(&mut self) -> (r: Result<(), ()>)
        ensures
            final(self)@ == old(self)@,
            r is Ok ==> final(self).spec_capacity() == old(self).spec_capacity() + 1,
            r is Err ==> final(self).spec_capacity() == old(self).spec_capacity(),
    {
        proof {
            use_type_invariant(&*self);
        }
        if self.cap == usize::MAX {
            return Err(());
        }
        let mut buf = std::vec::Vec::new();
        std::mem::swap(&mut buf, &mut self.buf);
        let additional: usize = request(buf.len(), self.cap);
        let outcome = try_reserve_exact(&mut buf, additional);
        self.buf = buf;
        match settle(self.cap, outcome) {
            Ok(cap) => {
                self.cap = cap;
                Ok(())
            },
            Err(()) => Err(()),
        }
    }

    /// Writes `value` into the first free slot, which must exist.
    fn write_slot(&mut self, value: T)
        requires
            old(self)@.len() < old(self).spec_capacity(),
        ensures
            final(self)@ == old(self)@.push(value),
            final(self).spec_capacity() == old(self).spec_capacity(),
    {
        let mut buf = std::vec::Vec::new();
        std::mem::swap(&mut buf, &mut self.buf);
        buf.push(value);
        self.buf = buf;
    }

    /// Appends `value`, growing by one slot first if every slot is in use.
    ///
    /// Fails only if that growth step fails; the container is then left as
    /// it was and `value` is dropped.
    pub fn push(&mut self, value: T) -> (r: Result<(), ()>)
        ensures
            old(self)@.len() < old(self).capacity() ==> r is Ok,
            r is Ok ==> final(self)@ == old(self)@.push(value),
            r is Ok ==> final(self).capacity() == capacity_after_push(
                old(self)@.len(),
                old(self).capacity() as nat,
            ),
            r is Err ==> final(self)@ == old(self)@,
            r is Err ==> final(self).capacity() == old(self).capacity(),
    {
        if self.len() == self.capacity() {
            match self.resize() {
                Ok(()) => {},
                Err(()) => {
                    return Err(());
                },
            }
        }
        self.write_slot(value);
        Ok(())
    }

    /// Removes the last element and returns it, or reports that there is
    /// nothing to remove. Capacity is kept.
    pub fn pop(&mut self) -> (r: Option<T>)
        ensures
            r == popped(old(self)@),
            final(self)@ == after_pop(old(self)@),
            final(self).capacity() == old(self).capacity(),
    {
        proof {
            use_type_invariant(&*self);
        }
        let mut buf = std::vec::Vec::new();
        std::mem::swap(&mut buf, &mut self.buf);
        let r = buf.pop();
        self.buf = buf;
        r
    }

    /// Whether there is no live element.
    pub fn is_empty(&self) -> (b: bool)
        ensures
            b <==> self@.len() == 0,
    {
        self.len() == 0
    }

    /// Removes every element, one pop at a time. Capacity is kept.
    pub fn clear(&mut self)
        ensures
            final(self)@ == Seq::<T>::empty(),
            final(self).capacity() == old(self).capacity(),
    {
        loop
            invariant
                self.capacity() == old(self).capacity(),
            ensures
                self@.len() == 0,
            decreases self@.len(),
        {
            match self.pop() {
                Some(_) => {},
                None => {
                    break ;
                },
            }
        }
    }

    /// Grows by `additional` slots beyond the current capacity, one growth
    /// step at a time.
    ///
    /// Stops at the first step that fails; the slots granted before it are
    /// kept.
    pub fn reserve(&mut self, additional: usize) -> (r: Result<(), ()>)
        ensures
            final(self)@ == old(self)@,
            additional == 0 ==> r is Ok,
            r is Ok ==> final(self).capacity() == old(self).capacity() + additional,
            r is Err ==> old(self).capacity() <= final(self).capacity() < old(self).capacity()
                + additional,
    {
        let mut granted: usize = 0;
        while granted < additional
            invariant
                self@ == old(self)@,
                granted <= additional,
                self.capacity() == old(self).capacity() + granted,
            decreases additional - granted,
        {
            match self.resize() {
                Ok(()) => {},
                Err(()) => {
                    return Err(());
                },
            }
            granted = granted + 1;
        }
        Ok(())
    }

    /// The live elements, in order.
    pub fn as_slice(&self) -> (s: &[T])
        ensures
            s@ == self@,
    {
        self.buf.as_slice()
    }

    /// The live elements, in order, open to writing in place.
    pub fn as_mut_slice(&mut self) -> (s: &mut [T])
        ensures
            s@ == old(self)@,
            final(s)@.len() == s@.len(),
            final(self)@ == final(s)@,
            final(self).capacity() == old(self).capacity(),
    {
        proof {
            use_type_invariant(&*self);
        }
        as_mut_slice(&mut self.buf)
    }

    /// The element at `index`, which must be a live one.
    pub fn index(&self, index: usize) -> (r: &T)
        requires
            index < self@.len(),
        ensures
            *r == self@[index as int],
    {
        &self.buf[index]
    }

    /// The element at `index`, which must be a live one, open to writing.
    pub fn index_mut(&mut self, index: usize) -> (r: &mut T)
        requires
            index < old(self)@.len(),
        ensures
            *r == old(self)@[index as int],
            final(self)@ == old(self)@.update(index as int, *final(r)),
            final(self).capacity() == old(self).capacity(),
    {
        proof {
            use_type_invariant(&*self);
        }
        &mut self.buf[index]
    }

    /// Moves every element of `other` to the end of `self`, in order.
    ///
    /// Room for all of them is reserved first, beyond the current capacity;
    /// if that fails, `self` keeps its elements and those of `other` are
    /// dropped. Either way `other` is left empty, with no slots.
    pub fn append(&mut self, other: &mut Vec<T>) -> (r: Result<(), ()>)
        ensures
            final(other)@ == Seq::<T>::empty(),
            final(other).capacity() == 0,
            old(other)@.len() == 0 ==> r is Ok,
            r is Ok ==> final(self)@ == old(self)@ + old(other)@,
            r is Ok ==> final(self).capacity() == old(self).capacity() + old(other)@.len(),
            r is Err ==> final(self)@ == old(self)@,
            r is Err ==> old(self).capacity() <= final(self).capacity() < old(self).capacity()
                + old(other)@.len(),
    {
        proof {
            use_type_invariant(&*self);
        }
        let mut mine = Vec::new();
        std::mem::swap(&mut mine, other);
        match self.reserve(mine.len()) {
            Ok(()) => {},
            Err(()) => {
                return Err(());
            },
        }
        let mut iter = mine.into_iter();
        loop
            invariant
                old(self)@ + old(other)@ == self@ + iter@,
                self@.len() + iter@.len() <= self.capacity(),
                self.capacity() == old(self).capacity() + old(other)@.len(),
            ensures
                self@ == old(self)@ + old(other)@,
            decreases iter@.len(),
        {
            match iter.next() {
                Some(elem) => {
                    let ghost before = self@;
                    match self.push(elem) {
                        Ok(()) => {},
                        Err(()) => {
                            return Err(());
                        },
                    }
                    assert(before.push(elem) + iter@ =~= before + seq![elem] + iter@);
                },
                None => {
                    break ;
                },
            }
        }
        Ok(())
    }
}

impl<T> IntoIterator for Vec<T> {
    type Item = T;

    type IntoIter = IntoIter<T>;

    /// Hands the elements over to an iterator that yields them by value,
    /// first to last. The container is used up.
    fn into_iter(self) -> (iter: IntoIter<T>)
        ensures
            iter@ == self@,
    {
        let Vec { buf, cap: _ } = self;
        IntoIter::over(buf)
    }
}

impl<T: Clone> Clone for Vec<T> {
    /// A container that holds a clone of each element, in order, in exactly
    /// as many slots.
    ///
    /// `Clone` has no way to report a failure, so here, and only here, an
    /// allocation failure is fatal: the standard library ends the process.
    fn clone(&self) -> (r: Vec<T>)
        ensures
            r@.len() == self@.len(),
            forall|i: int| 0 <= i < self@.len() ==> cloned::<T>(self@[i], #[trigger] r@[i]),
            r.capacity() == self@.len(),
    {
        let mut buf = std::vec::Vec::with_capacity(self.buf.len());
        let mut i: usize = 0;
        while i < self.buf.len()
            invariant
                i <= self.buf@.len(),
                buf@.len() == i,
                forall|j: int| 0 <= j < i ==> cloned::<T>(self.buf@[j], #[trigger] buf@[j]),
            decreases self.buf@.len() - i,
        {
            buf.push(self.buf[i].clone());
            i = i + 1;
        }
        Vec { buf, cap: i }
    }
}

impl<T: Zeroed> Vec<T> {
    /// A container of `size` all-zero elements in exactly `size` slots.
    ///
    /// The slots are reserved one growth step at a time; if a step fails,
    /// nothing is returned but the failure.
    pub fn with_len(size: usize) -> (r: Result<Vec<T>, ()>)
        ensures
            size == 0 ==> r is Ok,
            r matches Ok(v) ==> v@ == zeros::<T>(size as nat) && v.capacity() == size,
    {
        let mut vec = Vec::new();
        match vec.reserve(size) {
            Ok(()) => {},
            Err(()) => {
                return Err(());
            },
        }
        let mut filled: usize = 0;
        while filled < size
            invariant
                filled <= size,
                vec.capacity() == size,
                vec@ == zeros::<T>(filled as nat),
            decreases size - filled,
        {
            vec.write_slot(T::zeroed());
            filled = filled + 1;
        }
        Ok(vec)
    }
}

impl<T: Copy> Vec<T> {
    /// A container that holds a copy of `other`, in exactly as many slots.
    pub fn from_slice(other: &[T]) -> (r: Result<Vec<T>, ()>)
        ensures
            other@.len() == 0 ==> r is Ok,
            r matches Ok(v) ==> v@ == other@ && v.capacity() == other@.len(),
    {
        let mut vec = Vec::new();
        match vec.extend_from_slice(other) {
            Ok(()) => Ok(vec),
            Err(()) => Err(()),
        }
    }

    /// Copies `other` to the end of `self`.
    ///
    /// Room for the copy is reserved first, beyond the current capacity; if
    /// that fails, the elements are left as they were.
    pub fn extend_from_slice(&mut self, other: &[T]) -> (r: Result<(), ()>)
        ensures
            other@.len() == 0 ==> r is Ok,
            r is Ok ==> final(self)@ == old(self)@ + other@,
            r is Ok ==> final(self).capacity() == old(self).capacity() + other@.len(),
            r is Err ==> final(self)@ == old(self)@,
            r is Err ==> old(self).capacity() <= final(self).capacity() < old(self).capacity()
                + other@.len(),
    {
        proof {
            use_type_invariant(&*self);
        }
        match self.reserve(other.len()) {
            Ok(()) => {},
            Err(()) => {
                return Err(());
            },
        }
        let mut copied: usize = 0;
        while copied < other.len()
            invariant
                copied <= other@.len(),
                old(self)@.len() <= old(self).capacity(),
                self@ == old(self)@ + other@.subrange(0, copied as int),
                self.capacity() == old(self).capacity() + other@.len(),
            decreases other@.len() - copied,
        {
            self.write_slot(other[copied]);
            copied = copied + 1;
        }
        assert(other@.subrange(0, copied as int) =~= other@);
        Ok(())
    }
}

} // verus!
