//! The cosine of a scalar.

use vstd::prelude::*;

verus! {

/// A scalar with a cosine, the angle in radians: `cosinus` gives the value that
/// `cosinus_spec` names. A verified implementor says what that is; the default names no value in
/// particular.
pub trait Cosinus {
    type Output;

    open spec fn cosinus_spec(&self) -> Self::Output {
        arbitrary()
    }

    fn cosinus(&self) -> (r: Self::Output)
        ensures
            r == self.cosinus_spec(),
    ;
}

} // verus!
