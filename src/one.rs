//! Types equipped with a multiplicative identity (i.e., one).
use vstd::prelude::*;

verus! {

/// Types equipped with a multiplicative identity (i.e., one).
pub trait One: Sized {
    /// Multiplicative identity (i.e., one).
    spec fn spec_one() -> Self;

    /// Multiplicative identity (i.e., one).
    fn one() -> (r: Self)
        ensures
            r == Self::spec_one(),
    ;
}

impl One for u8 {
    open spec fn spec_one() -> u8 {
        1
    }

    fn one() -> (r: u8) {
        1
    }
}

impl One for i8 {
    open spec fn spec_one() -> i8 {
        1
    }

    fn one() -> (r: i8) {
        1
    }
}

impl One for u16 {
    open spec fn spec_one() -> u16 {
        1
    }

    fn one() -> (r: u16) {
        1
    }
}

impl One for i16 {
    open spec fn spec_one() -> i16 {
        1
    }

    fn one() -> (r: i16) {
        1
    }
}

impl One for u32 {
    open spec fn spec_one() -> u32 {
        1
    }

    fn one() -> (r: u32) {
        1
    }
}

impl One for i32 {
    open spec fn spec_one() -> i32 {
        1
    }

    fn one() -> (r: i32) {
        1
    }
}

impl One for u64 {
    open spec fn spec_one() -> u64 {
        1
    }

    fn one() -> (r: u64) {
        1
    }
}

impl One for i64 {
    open spec fn spec_one() -> i64 {
        1
    }

    fn one() -> (r: i64) {
        1
    }
}

impl One for u128 {
    open spec fn spec_one() -> u128 {
        1
    }

    fn one() -> (r: u128) {
        1
    }
}

impl One for i128 {
    open spec fn spec_one() -> i128 {
        1
    }

    fn one() -> (r: i128) {
        1
    }
}

impl One for usize {
    open spec fn spec_one() -> usize {
        1
    }

    fn one() -> (r: usize) {
        1
    }
}

impl One for isize {
    open spec fn spec_one() -> isize {
        1
    }

    fn one() -> (r: isize) {
        1
    }
}

} // verus!
