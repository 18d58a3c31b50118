//! The square root of a scalar.

use vstd::prelude::*;

verus! {

/// A scalar with a square root: `sqrt` gives the value that `sqrt_spec` names.
/// A verified implementor says what that is; the default names no value in
/// particular.
pub trait Sqrt: Sized {
    type Type;

    open spec fn sqrt_spec(value: Self) -> Self::Type {
        arbitrary()
    }

    fn sqrt(value: Self) -> (r: Self::Type)
        ensures
            r == Self::sqrt_spec(value),
    ;
}

} // verus!
