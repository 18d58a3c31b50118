//! The number zero of a scalar type, and conversion into a scalar type.

use vstd::prelude::*;

verus! {

/// A type with a zero: `zero` gives the value that `zero_spec` names. For the
/// integers that is 0; the default names no value in particular.
pub trait Zero {
    type Output;

    open spec fn zero_spec() -> Self::Output {
        arbitrary()
    }

    fn zero() -> (r: Self::Output)
        ensures
            r == Self::zero_spec(),
    ;
}

/// A type that values of `T` convert to: `convert_from` gives the value that
/// `convert_spec` names. A verified implementor says what that is; the default
/// names no value in particular.
pub trait ConvertFrom<T> {
    type Output;

    open spec fn convert_spec(from: T) -> Self::Output {
        arbitrary()
    }

    fn convert_from(from: T) -> (r: Self::Output)
        ensures
            r == Self::convert_spec(from),
    ;
}

impl Zero for i8 {
    type Output = i8;

    open spec fn zero_spec() -> i8 {
        0
    }

    fn zero() -> (r: i8) {
        0
    }
}

impl Zero for u8 {
    type Output = u8;

    open spec fn zero_spec() -> u8 {
        0
    }

    fn zero() -> (r: u8) {
        0
    }
}

impl Zero for i16 {
    type Output = i16;

    open spec fn zero_spec() -> i16 {
        0
    }

    fn zero() -> (r: i16) {
        0
    }
}

impl Zero for u16 {
    type Output = u16;

    open spec fn zero_spec() -> u16 {
        0
    }

    fn zero() -> (r: u16) {
        0
    }
}

impl Zero for i32 {
    type Output = i32;

    open spec fn zero_spec() -> i32 {
        0
    }

    fn zero() -> (r: i32) {
        0
    }
}

impl Zero for u32 {
    type Output = u32;

    open spec fn zero_spec() -> u32 {
        0
    }

    fn zero() -> (r: u32) {
        0
    }
}

impl Zero for i64 {
    type Output = i64;

    open spec fn zero_spec() -> i64 {
        0
    }

    fn zero() -> (r: i64) {
        0
    }
}

impl Zero for u64 {
    type Output = u64;

    open spec fn zero_spec() -> u64 {
        0
    }

    fn zero() -> (r: u64) {
        0
    }
}

impl Zero for i128 {
    type Output = i128;

    open spec fn zero_spec() -> i128 {
        0
    }

    fn zero() -> (r: i128) {
        0
    }
}

impl Zero for u128 {
    type Output = u128;

    open spec fn zero_spec() -> u128 {
        0
    }

    fn zero() -> (r: u128) {
        0
    }
}

impl Zero for isize {
    type Output = isize;

    open spec fn zero_spec() -> isize {
        0
    }

    fn zero() -> (r: isize) {
        0
    }
}

impl Zero for usize {
    type Output = usize;

    open spec fn zero_spec() -> usize {
        0
    }

    fn zero() -> (r: usize) {
        0
    }
}

} // verus!
