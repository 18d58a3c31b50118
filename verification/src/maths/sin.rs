//! The sine of a scalar.

use vstd::prelude::*;

verus! {

/// A scalar with a sine, the angle in radians: `sinus` gives the value that
/// `sinus_spec` names. A verified implementor says what that is; the default names no value in
/// particular.
pub trait Sinus {
    type Output;

    open spec fn sinus_spec(&self) -> Self::Output {
        arbitrary()
    }

    fn sinus(&self) -> (r: Self::Output)
        ensures
            r == self.sinus_spec(),
    ;
}

} // verus!
