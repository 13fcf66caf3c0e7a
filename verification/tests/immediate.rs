//! The unbatched immediate-mode path and image-row flipping.

use poseidon::array_buffer::ArrayBuffer;
use poseidon::index_buffer::IndexBuffer;
use poseidon::math::{Vec2Fx, Vec3Fx, Vec4Fx, FX_ONE};
use poseidon::renderer_2d::{rect_vertex_layout, Rect, Renderer2D};
use poseidon::shader::Shader;
use poseidon::texture::{flip_rows_vertically, Texture};
use poseidon::vertex_array::VertexArray;

fn renderer() -> Renderer2D {
    Renderer2D::new(
        Shader::new(40),
        Texture::new(41),
        VertexArray::new(42),
        ArrayBuffer::new(43, rect_vertex_layout()),
        IndexBuffer::new(44),
    )
}

fn fx(v: i64) -> i64 {
    v * FX_ONE
}

#[test]
fn immediate_textured_rect_is_one_throwaway_quad() {
    let renderer = renderer();
    let texture = Texture::new(50);
    let rect = Rect::new(
        Vec3Fx::new(fx(10), fx(20), fx(3)),
        Vec2Fx::new(fx(30), fx(40)),
        Vec2Fx::zero(),
        Vec2Fx::zero(),
        Vec2Fx::one(),
    );
    let draw = renderer.draw_textured_rect(rect, &texture, Vec4Fx::one());

    assert_eq!(draw.shader.program, 40);
    assert_eq!(draw.texture_bind.unit, 0);
    assert_eq!(draw.texture_bind.texture, 50);
    assert_eq!(draw.layout.stride(), 40);
    assert_eq!(draw.indices, vec![0, 1, 2, 0, 2, 3]);

    assert_eq!(draw.vertices.len(), 4);
    assert_eq!(draw.vertices[0].position, Vec3Fx::new(fx(10), fx(20), fx(3)));
    assert_eq!(draw.vertices[1].position, Vec3Fx::new(fx(40), fx(20), fx(3)));
    assert_eq!(draw.vertices[2].position, Vec3Fx::new(fx(40), fx(60), fx(3)));
    assert_eq!(draw.vertices[3].position, Vec3Fx::new(fx(10), fx(60), fx(3)));
    for vertex in &draw.vertices {
        assert_eq!(vertex.slot, 0);
        assert_eq!(vertex.color, Vec4Fx::one());
    }
}

#[test]
fn immediate_plain_rect_uses_the_default_texture() {
    let renderer = renderer();
    let rect = Rect::new(
        Vec3Fx::zero(),
        Vec2Fx::new(fx(8), fx(8)),
        Vec2Fx::zero(),
        Vec2Fx::zero(),
        Vec2Fx::one(),
    );
    let tint = Vec4Fx::new(0, FX_ONE, FX_ONE, FX_ONE);
    let draw = renderer.draw_rect(rect, tint);
    assert_eq!(draw.texture_bind.texture, 41);
    assert_eq!(draw.texture_bind.unit, 0);
    for vertex in &draw.vertices {
        assert_eq!(vertex.color, tint);
    }
}

#[test]
fn flipping_reverses_row_order_and_keeps_rows_intact() {
    // Three rows of four bytes each, top row first.
    let pixels = vec![
        0, 1, 2, 3, //
        10, 11, 12, 13, //
        20, 21, 22, 23,
    ];
    let flipped = flip_rows_vertically(&pixels, 3, 4);
    assert_eq!(flipped, vec![20, 21, 22, 23, 10, 11, 12, 13, 0, 1, 2, 3]);
}

#[test]
fn flipping_an_empty_image_returns_nothing() {
    let flipped = flip_rows_vertically(&Vec::new(), 0, 4);
    assert!(flipped.is_empty());
}
