//! Index-buffer handle.

use vstd::prelude::*;

verus! {

/// A buffer of index graphics data: the handle of a device buffer the
/// host allocated. The host uploads index data into it.
#[derive(Clone, Copy, PartialEq, Eq, Structural, Debug)]
pub struct IndexBuffer {
    pub id: u32,
}

impl IndexBuffer {
    /// Creates a new `IndexBuffer` around a host-allocated buffer handle.
    pub fn new(id: u32) -> (r: Self)
        ensures
            r == (IndexBuffer { id }),
    {
        IndexBuffer { id }
    }
}

} // verus!
