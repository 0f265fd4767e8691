//! The growth policy: what one growth request asks of the allocator, and
//! what its answer does to the slot count.

use std::collections::TryReserveError;
use vstd::prelude::*;

verus! {

/// What one growth step asks the allocator for: room, beyond the `len`
/// elements that are there, to fill one slot more than the `cap` counted
/// ones. Never more: growth is by a single slot.
pub open spec fn requested(len: nat, cap: nat) -> nat {
    (cap + 1 - len) as nat
}

/// Computes the request of one growth step for `len` elements in `cap`
/// slots: with it granted, the buffer has room for exactly `cap + 1`
/// elements' worth of slots.
pub fn request(len: usize, cap: usize) -> (additional: usize)
    requires
        len <= cap,
        cap < usize::MAX,
    ensures
        additional == requested(len as nat, cap as nat),
        len + additional == cap + 1,
{
    cap - len + 1
}

/// The capacity that one growth request from `cap` settles to: one slot more
/// if the allocator granted it and the count still fits, else a failure.
pub open spec fn settled(cap: usize, granted: bool) -> Result<usize, ()> {
    if granted && cap < usize::MAX {
        Ok((cap + 1) as usize)
    } else {
        Err(())
    }
}

/// Turns the allocator's answer to one growth request into the new capacity.
///
/// A grant adds exactly one slot; a refusal is reported as the library's
/// failure value and adds nothing.
pub fn settle(cap: usize, outcome: Result<(), TryReserveError>) -> (r: Result<usize, ()>)
    ensures
        r == settled(cap, outcome is Ok),
{
    match outcome {
        Ok(()) => if cap < usize::MAX {
            Ok(cap + 1)
        } else {
            Err(())
        },
        Err(_) => Err(()),
    }
}

} // verus!
