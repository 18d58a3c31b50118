//! Degrees to radians.

use vstd::prelude::*;

verus! {

/// A scalar that holds an angle in degrees: `to_rad` gives the same angle in
/// radians, the value that `to_rad_spec` names. The implementor says what that
/// is.
pub trait Radians {
    type Output;

    open spec fn to_rad_spec(&self) -> Self::Output {
        arbitrary()
    }

    fn to_rad(&self) -> (r: Self::Output)
        ensures
            r == self.to_rad_spec(),
    ;
}

} // verus!
