//! Device actions the library decides.
//!
//! Each value here is a complete, plain description of one action on the
//! graphics device: which texture goes to which unit, which program to
//! make current, which vertex array to draw and for how many indices, or
//! how one vertex attribute is wired. The host that owns the device
//! context performs them in the order the library hands them out.

use vstd::prelude::*;

verus! {

/// Bind a texture handle to a shader-visible texture unit.
#[derive(Clone, Copy, PartialEq, Eq, Structural, Debug)]
pub struct TextureBind {
    pub unit: u32,
    pub texture: u32,
}

/// Make a shader program the current one.
#[derive(Clone, Copy, PartialEq, Eq, Structural, Debug)]
pub struct ShaderBind {
    pub program: u32,
}

/// Issue one indexed triangle-list draw from a vertex array.
#[derive(Clone, Copy, PartialEq, Eq, Structural, Debug)]
pub struct DrawCall {
    pub vertex_array: u32,
    pub index_count: u32,
}

/// Wire one vertex attribute of a bound buffer: attribute `index` has
/// `component_count` scalars, starts `offset` bytes into each record of
/// `stride` bytes, and goes through the device's integer entry point
/// when `integer` is set.
#[derive(Clone, Copy, PartialEq, Eq, Structural, Debug)]
pub struct AttributePointer {
    pub index: u32,
    pub component_count: u32,
    pub integer: bool,
    pub normalized: bool,
    pub stride: u32,
    pub offset: u32,
}

} // verus!
