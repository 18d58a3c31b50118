//! The number one of a scalar type.

use vstd::prelude::*;

verus! {

/// A type with a one: `one` gives the value that `one_spec` names. For the
/// integers that is 1; the default names no value in particular.
pub trait One {
    type Output;

    open spec fn one_spec() -> Self::Output {
        arbitrary()
    }

    fn one() -> (r: Self::Output)
        ensures
            r == Self::one_spec(),
    ;
}

impl One for i8 {
    type Output = i8;

    open spec fn one_spec() -> i8 {
        1
    }

    fn one() -> (r: i8) {
        1
    }
}

impl One for u8 {
    type Output = u8;

    open spec fn one_spec() -> u8 {
        1
    }

    fn one() -> (r: u8) {
        1
    }
}

impl One for i16 {
    type Output = i16;

    open spec fn one_spec() -> i16 {
        1
    }

    fn one() -> (r: i16) {
        1
    }
}

impl One for u16 {
    type Output = u16;

    open spec fn one_spec() -> u16 {
        1
    }

    fn one() -> (r: u16) {
        1
    }
}

impl One for i32 {
    type Output = i32;

    open spec fn one_spec() -> i32 {
        1
    }

    fn one() -> (r: i32) {
        1
    }
}

impl One for u32 {
    type Output = u32;

    open spec fn one_spec() -> u32 {
        1
    }

    fn one() -> (r: u32) {
        1
    }
}

impl One for i64 {
    type Output = i64;

    open spec fn one_spec() -> i64 {
        1
    }

    fn one() -> (r: i64) {
        1
    }
}

impl One for u64 {
    type Output = u64;

    open spec fn one_spec() -> u64 {
        1
    }

    fn one() -> (r: u64) {
        1
    }
}

impl One for i128 {
    type Output = i128;

    open spec fn one_spec() -> i128 {
        1
    }

    fn one() -> (r: i128) {
        1
    }
}

impl One for u128 {
    type Output = u128;

    open spec fn one_spec() -> u128 {
        1
    }

    fn one() -> (r: u128) {
        1
    }
}

impl One for isize {
    type Output = isize;

    open spec fn one_spec() -> isize {
        1
    }

    fn one() -> (r: isize) {
        1
    }
}

impl One for usize {
    type Output = usize;

    open spec fn one_spec() -> usize {
        1
    }

    fn one() -> (r: usize) {
        1
    }
}

} // verus!
