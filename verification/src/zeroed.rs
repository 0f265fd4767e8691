//! Element types that have an all-zero value.

use vstd::prelude::*;

verus! {

/// A type whose value with every byte zero is a valid value.
///
/// The container takes an implementation at its word: `with_len` hands out
/// whatever `zeroed` returns.
pub trait Zeroed: Sized {
    /// The all-zero value.
    spec fn zero() -> Self;

    /// Makes the all-zero value.
    fn zeroed() -> (z: Self)
        ensures
            z == Self::zero(),
    ;
}

impl Zeroed for u8 {
    open spec fn zero() -> u8 {
        0
    }

    fn zeroed() -> u8 {
        0
    }
}

impl Zeroed for u16 {
    open spec fn zero() -> u16 {
        0
    }

    fn zeroed() -> u16 {
        0
    }
}

impl Zeroed for u32 {
    open spec fn zero() -> u32 {
        0
    }

    fn zeroed() -> u32 {
        0
    }
}

impl Zeroed for u64 {
    open spec fn zero() -> u64 {
        0
    }

    fn zeroed() -> u64 {
        0
    }
}

impl Zeroed for u128 {
    open spec fn zero() -> u128 {
        0
    }

    fn zeroed() -> u128 {
        0
    }
}

impl Zeroed for usize {
    open spec fn zero() -> usize {
        0
    }

    fn zeroed() -> usize {
        0
    }
}

impl Zeroed for i8 {
    open spec fn zero() -> i8 {
        0
    }

    fn zeroed() -> i8 {
        0
    }
}

impl Zeroed for i16 {
    open spec fn zero() -> i16 {
        0
    }

    fn zeroed() -> i16 {
        0
    }
}

impl Zeroed for i32 {
    open spec fn zero() -> i32 {
        0
    }

    fn zeroed() -> i32 {
        0
    }
}

impl Zeroed for i64 {
    open spec fn zero() -> i64 {
        0
    }

    fn zeroed() -> i64 {
        0
    }
}

impl Zeroed for i128 {
    open spec fn zero() -> i128 {
        0
    }

    fn zeroed() -> i128 {
        0
    }
}

impl Zeroed for isize {
    open spec fn zero() -> isize {
        0
    }

    fn zeroed() -> isize {
        0
    }
}

impl Zeroed for bool {
    open spec fn zero() -> bool {
        false
    }

    fn zeroed() -> bool {
        false
    }
}

impl<T: Zeroed + Copy, const N: usize> Zeroed for [T; N] {
    open spec fn zero() -> [T; N] {
        vstd::array::spec_array_fill_for_copy_type(T::zero())
    }

    fn zeroed() -> [T; N] {
        [T::zeroed(); N]
    }
}

} // verus!
