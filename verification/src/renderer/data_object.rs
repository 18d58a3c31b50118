//! Where the attributes of a vertex stand in its buffer.

use vstd::prelude::*;

verus! {

/// One attribute of a vertex: its index, how many scalars it has, how many
/// bytes lie between two vertices, and at which byte the attribute begins.
pub struct AttribPointer {
    pub index: u32,
    pub size: i32,
    pub stride: i32,
    pub offset: usize,
}

pub type AttribPointers = Vec<AttribPointer>;

} // verus!
