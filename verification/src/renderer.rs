//! Draw submission.

use vstd::prelude::*;
use crate::commands::DrawCall;
use crate::vertex_array::VertexArray;

verus! {

/// Stateless draw-submission facade: turns "draw this vertex array for
/// this many indices" into the one draw-call description the host issues.
pub struct Renderer {}

impl Renderer {
    /// Draw a number of indices from a vertex array.
    pub fn draw_elements(vertex_array: &VertexArray, count: u32) -> (r: DrawCall)
        ensures
            r == (DrawCall { vertex_array: vertex_array.id, index_count: count }),
    {
        DrawCall { vertex_array: vertex_array.id, index_count: count }
    }
}

} // verus!
