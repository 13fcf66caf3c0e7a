//! Vertex-array description: one drawable unit.

use vstd::prelude::*;
use crate::array_buffer::{ArrayBuffer, MAX_LAYOUT_ATTRIBUTES};
use crate::commands::AttributePointer;
use crate::index_buffer::IndexBuffer;

verus! {

/// An array of vertex data: a device vertex-array handle together with
/// the buffers the library has attached to it.
#[derive(Debug)]
pub struct VertexArray {
    pub id: u32,
    pub vertex_buffers: Vec<u32>,
    pub index_buffer: Option<u32>,
}

impl VertexArray {
    /// Creates a new `VertexArray` around a host-allocated handle, with
    /// no buffers attached yet.
    pub fn new(id: u32) -> (r: Self)
        ensures
            r.id == id,
            r.vertex_buffers@ == Seq::<u32>::empty(),
            r.index_buffer is None,
    {
        VertexArray { id, vertex_buffers: Vec::new(), index_buffer: None }
    }

    /// Adds a vertex buffer to this array.
    ///
    /// Returns one attribute-pointer description per attribute of the
    /// buffer's layout, in attribute order: the host performs them with
    /// this array and the buffer bound. An integer attribute is marked so
    /// that the host wires it through the device's integer entry point.
    pub fn add_vertex_buffer(&mut self, vertex_buffer: &ArrayBuffer) -> (r: Vec<AttributePointer>)
        requires
            vertex_buffer.layout.wf(),
            vertex_buffer.layout.attributes@.len() <= MAX_LAYOUT_ATTRIBUTES,
        ensures
            final(self).id == old(self).id,
            final(self).vertex_buffers@ == old(self).vertex_buffers@.push(vertex_buffer.id),
            final(self).index_buffer == old(self).index_buffer,
            r@.len() == vertex_buffer.layout.attributes@.len(),
            forall|i: int|
                0 <= i < r@.len() ==> r@[i] == (AttributePointer {
                    index: i as u32,
                    component_count: vertex_buffer.layout.attributes@[i].attribute_type.component_count_spec(),
                    integer: vertex_buffer.layout.attributes@[i].attribute_type.is_integer_spec(),
                    normalized: vertex_buffer.layout.attributes@[i].normalized,
                    stride: vertex_buffer.layout.stride,
                    offset: vertex_buffer.layout.offsets@[i],
                }),
    {
        let layout = vertex_buffer.layout();
        let attributes = layout.attributes();
        let offsets = layout.offsets();
        let stride = layout.stride();
        let n = attributes.len();

        let mut pointers: Vec<AttributePointer> = Vec::new();
        for i in 0..n
            invariant
                n == attributes@.len(),
                n <= MAX_LAYOUT_ATTRIBUTES,
                attributes@ == vertex_buffer.layout.attributes@,
                offsets@ == vertex_buffer.layout.offsets@,
                stride == vertex_buffer.layout.stride,
                offsets@.len() == n,
                pointers@.len() == i,
                forall|j: int|
                    0 <= j < i ==> pointers@[j] == (AttributePointer {
                        index: j as u32,
                        component_count: attributes@[j].attribute_type.component_count_spec(),
                        integer: attributes@[j].attribute_type.is_integer_spec(),
                        normalized: attributes@[j].normalized,
                        stride: stride,
                        offset: offsets@[j],
                    }),
        {
            let attribute = attributes[i];
            pointers.push(
                AttributePointer {
                    index: i as u32,
                    component_count: attribute.attribute_type().component_count(),
                    integer: attribute.attribute_type().is_integer(),
                    normalized: attribute.normalized(),
                    stride,
                    offset: offsets[i],
                },
            );
        }
        self.vertex_buffers.push(vertex_buffer.id);
        pointers
    }

    /// Sets the `IndexBuffer` of this array.
    pub fn set_index_buffer(&mut self, index_buffer: &IndexBuffer)
        ensures
            final(self).id == old(self).id,
            final(self).vertex_buffers@ == old(self).vertex_buffers@,
            final(self).index_buffer == Some(index_buffer.id),
    {
        self.index_buffer = Some(index_buffer.id);
    }
}

} // verus!
