//! The calls into the standard library that the container rests on and whose
//! behaviour is taken on trust: each is believed as its contract states.

use std::collections::TryReserveError;
use std::collections::VecDeque;
use vstd::prelude::*;

verus! {

/// `Vec::try_reserve_exact` of the standard library.
///
/// Believed without proof: whether the request is granted or refused, the
/// elements of `buf` stay as they were. Nothing is promised about which of
/// the two happens.
#[verifier::external_body]
pub(crate) fn try_reserve_exact<T>(buf: &mut std::vec::Vec<T>, additional: usize) -> (r: Result<
    (),
    TryReserveError,
>)
    ensures
        final(buf)@ == old(buf)@,
{
    buf.try_reserve_exact(additional)
}

/// `Vec::as_mut_slice` of the standard library.
///
/// Believed without proof: the slice starts out as the elements of `buf`,
/// what is written through it ends up in `buf`, and, as with every `&mut [T]`,
/// its length cannot change. The call does not unwind.
#[verifier::external_body]
pub(crate) fn as_mut_slice<T>(buf: &mut std::vec::Vec<T>) -> (s: &mut [T])
    ensures
        s@ == old(buf)@,
        final(s)@ == final(buf)@,
        final(s)@.len() == s@.len(),
    no_unwind
{
    buf.as_mut_slice()
}

/// `VecDeque::from` of the standard library, on a `Vec`.
///
/// Believed without proof: the queue holds the elements of `buf`, front to
/// back in the order of `buf`.
#[verifier::external_body]
pub(crate) fn into_deque<T>(buf: std::vec::Vec<T>) -> (d: VecDeque<T>)
    ensures
        d@ == buf@,
{
    VecDeque::from(buf)
}

} // verus!
