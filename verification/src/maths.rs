//! Scalars, vectors and 4x4 matrices for transforms.
//!
//! Everything here is generic in the scalar. What an operation computes is
//! stated over the scalar's own operators, through the specifications that
//! vstd gives `+ - * /` and the traits of this module: for a scalar whose
//! operators obey their specifications, such as the integers, a result is
//! known exactly.

pub mod cos;
pub mod mat;
pub mod one;
pub mod rad;
pub mod sin;
pub mod sqrt;
pub mod vec;
pub mod zero;
