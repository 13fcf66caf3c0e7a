//! Shader-program handle.

use vstd::prelude::*;
use crate::commands::ShaderBind;

verus! {

/// A shader program: the handle of a compiled and linked program the
/// host built. Compiling, linking and uniform upload stay with the host;
/// the library only decides when the program must be current.
#[derive(Clone, Copy, PartialEq, Eq, Structural, Debug)]
pub struct Shader {
    pub program: u32,
}

impl Shader {
    /// Creates a new `Shader` around a host-linked program handle.
    pub fn new(program: u32) -> (r: Self)
        ensures
            r == (Shader { program }),
    {
        Shader { program }
    }

    /// Make this shader the active `Shader`.
    pub fn bind(&self) -> (r: ShaderBind)
        ensures
            r == (ShaderBind { program: self.program }),
    {
        ShaderBind { program: self.program }
    }
}

} // verus!
