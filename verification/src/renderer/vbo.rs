//! How a vertex buffer is going to be used.

use vstd::prelude::*;

verus! {

/// Whether the content of a vertex buffer is written once or again and again.
#[derive(Clone, Copy, Debug, PartialEq, Eq, Structural)]
pub enum VBOType {
    StaticDraw,
    DynamicDraw,
}

} // verus!
