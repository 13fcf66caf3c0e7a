//! Buffer layout description and vertex-array wiring.

use poseidon::array_buffer::{ArrayBuffer, AttributeType, BufferAttribute, BufferLayout};
use poseidon::index_buffer::IndexBuffer;
use poseidon::renderer::Renderer;
use poseidon::renderer_2d::{rect_vertex_layout, texture_slot_indices, MAX_TEXTURE_SLOTS};
use poseidon::vertex_array::VertexArray;

#[test]
fn attribute_sizes_and_component_counts() {
    assert_eq!(AttributeType::Float.size(), 4);
    assert_eq!(AttributeType::Vec2f.size(), 8);
    assert_eq!(AttributeType::Vec3f.size(), 12);
    assert_eq!(AttributeType::Vec4f.size(), 16);
    assert_eq!(AttributeType::Int.size(), 4);

    assert_eq!(AttributeType::Float.component_count(), 1);
    assert_eq!(AttributeType::Vec2f.component_count(), 2);
    assert_eq!(AttributeType::Vec3f.component_count(), 3);
    assert_eq!(AttributeType::Vec4f.component_count(), 4);
    assert_eq!(AttributeType::Int.component_count(), 1);

    assert!(AttributeType::Int.is_integer());
    assert!(!AttributeType::Vec3f.is_integer());
}

#[test]
fn buffer_attribute_getters() {
    let attribute = BufferAttribute::new(AttributeType::Vec2f, true);
    assert_eq!(attribute.attribute_type(), AttributeType::Vec2f);
    assert!(attribute.normalized());
}

#[test]
fn layout_offsets_accumulate_attribute_sizes() {
    let layout = BufferLayout::new(vec![
        BufferAttribute::new(AttributeType::Vec3f, false),
        BufferAttribute::new(AttributeType::Vec2f, false),
        BufferAttribute::new(AttributeType::Vec4f, false),
        BufferAttribute::new(AttributeType::Int, false),
    ]);
    assert_eq!(layout.offsets(), &vec![0, 12, 20, 36]);
    assert_eq!(layout.stride(), 40);
    assert_eq!(layout.attributes().len(), 4);
}

#[test]
fn empty_layout_has_zero_stride() {
    let layout = BufferLayout::new(Vec::new());
    assert!(layout.offsets().is_empty());
    assert_eq!(layout.stride(), 0);
}

#[test]
fn rect_vertex_layout_is_40_bytes() {
    let layout = rect_vertex_layout();
    assert_eq!(layout.stride(), 40);
    assert_eq!(layout.offsets(), &vec![0, 12, 20, 36]);
}

#[test]
fn vertex_array_wires_attribute_pointers() {
    let buffer = ArrayBuffer::new(6, rect_vertex_layout());
    assert_eq!(buffer.layout().stride(), 40);
    let mut array = VertexArray::new(5);
    let pointers = array.add_vertex_buffer(&buffer);
    assert_eq!(array.vertex_buffers, vec![6]);

    assert_eq!(pointers.len(), 4);
    let expected = [
        // (components, integer, stride, offset)
        (3, false, 40, 0),
        (2, false, 40, 12),
        (4, false, 40, 20),
        (1, true, 40, 36),
    ];
    for (i, pointer) in pointers.iter().enumerate() {
        assert_eq!(pointer.index, i as u32);
        assert_eq!(pointer.component_count, expected[i].0);
        assert_eq!(pointer.integer, expected[i].1);
        assert!(!pointer.normalized);
        assert_eq!(pointer.stride, expected[i].2);
        assert_eq!(pointer.offset, expected[i].3);
    }

    let index_buffer = IndexBuffer::new(9);
    array.set_index_buffer(&index_buffer);
    assert_eq!(array.index_buffer, Some(9));
}

#[test]
fn draw_elements_names_the_array_and_count() {
    let array = VertexArray::new(14);
    let call = Renderer::draw_elements(&array, 66);
    assert_eq!(call.vertex_array, 14);
    assert_eq!(call.index_count, 66);
}

#[test]
fn sampler_array_names_every_unit_in_order() {
    let slots = texture_slot_indices();
    assert_eq!(slots.len(), MAX_TEXTURE_SLOTS);
    for (i, slot) in slots.iter().enumerate() {
        assert_eq!(*slot, i as i32);
    }
}
