//! The batch accumulation and flush protocol, end to end.

use poseidon::array_buffer::ArrayBuffer;
use poseidon::index_buffer::IndexBuffer;
use poseidon::math::{Vec2Fx, Vec3Fx, Vec4Fx, FX_ONE};
use poseidon::renderer_2d::{
    rect_vertex_layout, Rect, RectBatch, Renderer2D, MAX_RECTS_IN_BATCH, MAX_TEXTURE_SLOTS,
};
use poseidon::shader::Shader;
use poseidon::texture::Texture;
use poseidon::vertex_array::VertexArray;

fn fresh_batch() -> RectBatch {
    RectBatch::new(
        VertexArray::new(10),
        ArrayBuffer::new(11, rect_vertex_layout()),
        IndexBuffer::new(12),
    )
}

fn fx(v: i64) -> i64 {
    v * FX_ONE
}

fn unit_uv_rect(x: i64, y: i64, w: i64, h: i64) -> Rect {
    Rect::new(
        Vec3Fx::new(fx(x), fx(y), 0),
        Vec2Fx::new(fx(w), fx(h)),
        Vec2Fx::zero(),
        Vec2Fx::zero(),
        Vec2Fx::one(),
    )
}

fn red() -> Vec4Fx {
    Vec4Fx::new(FX_ONE, 0, 0, FX_ONE)
}

#[test]
fn vertex_and_index_counts_follow_adds() {
    let mut batch = fresh_batch();
    batch.reset();
    let texture = Texture::new(77);
    let n: usize = 9;
    for i in 0..n {
        if i % 3 == 2 {
            batch.add_textured_rect(unit_uv_rect(i as i64, 0, 10, 10), &texture, Vec4Fx::one());
        } else {
            batch.add_rect(unit_uv_rect(i as i64, 0, 10, 10), red());
        }
    }
    let submission = batch.draw();
    assert_eq!(submission.vertices.len(), 4 * n);
    assert_eq!(submission.draw.index_count, 6 * n as u32);
    assert_eq!(submission.vertex_buffer, 11);
    assert_eq!(submission.draw.vertex_array, 10);
}

#[test]
fn corners_of_bottom_left_pivot_rect() {
    let mut batch = fresh_batch();
    batch.reset();
    let rect = Rect::new(
        Vec3Fx::new(0, 0, 0),
        Vec2Fx::new(fx(200), fx(100)),
        Vec2Fx::new(0, 0),
        Vec2Fx::new(0, 0),
        Vec2Fx::new(FX_ONE, FX_ONE),
    );
    batch.add_rect(rect, red());

    // Winding order: bottom-left, bottom-right, top-right, top-left.
    assert_eq!(batch.vertices[0].position, Vec3Fx::new(0, 0, 0));
    assert_eq!(batch.vertices[1].position, Vec3Fx::new(fx(200), 0, 0));
    assert_eq!(batch.vertices[2].position, Vec3Fx::new(fx(200), fx(100), 0));
    assert_eq!(batch.vertices[3].position, Vec3Fx::new(0, fx(100), 0));
    assert_eq!(batch.vertices[0].uv, Vec2Fx::new(0, 0));
    assert_eq!(batch.vertices[1].uv, Vec2Fx::new(FX_ONE, 0));
    assert_eq!(batch.vertices[2].uv, Vec2Fx::new(FX_ONE, FX_ONE));
    assert_eq!(batch.vertices[3].uv, Vec2Fx::new(0, FX_ONE));
    for k in 0..4 {
        assert_eq!(batch.vertices[k].color, red());
        assert_eq!(batch.vertices[k].slot, 0);
    }
}

#[test]
fn bounds_with_centered_pivot() {
    let rect = Rect::new(
        Vec3Fx::new(0, 0, 0),
        Vec2Fx::new(fx(200), fx(100)),
        Vec2Fx::new(FX_ONE / 2, FX_ONE / 2),
        Vec2Fx::zero(),
        Vec2Fx::one(),
    );
    assert_eq!(rect.left(), fx(-100));
    assert_eq!(rect.right(), fx(100));
    assert_eq!(rect.bottom(), fx(-50));
    assert_eq!(rect.top(), fx(50));
}

#[test]
fn bounds_with_top_right_pivot() {
    let rect = Rect::new(
        Vec3Fx::new(0, 0, 0),
        Vec2Fx::new(fx(200), fx(100)),
        Vec2Fx::new(FX_ONE, FX_ONE),
        Vec2Fx::zero(),
        Vec2Fx::one(),
    );
    assert_eq!(rect.left(), fx(-200));
    assert_eq!(rect.right(), 0);
    assert_eq!(rect.bottom(), fx(-100));
    assert_eq!(rect.top(), 0);
}

#[test]
fn texture_slots_count_up_from_one_after_reset() {
    let mut batch = fresh_batch();
    batch.reset();
    let first = Texture::new(100);
    let second = Texture::new(200);

    batch.add_textured_rect(unit_uv_rect(0, 0, 10, 10), &first, Vec4Fx::one());
    assert_eq!(batch.vertices[0].slot, 1);
    assert_eq!(batch.next_texture_slot, 2);

    batch.add_rect(unit_uv_rect(1, 0, 10, 10), red());
    assert_eq!(batch.vertices[4].slot, 0);
    assert_eq!(batch.next_texture_slot, 2);

    batch.add_textured_rect(unit_uv_rect(2, 0, 10, 10), &second, Vec4Fx::one());
    assert_eq!(batch.vertices[8].slot, 2);
    assert_eq!(batch.next_texture_slot, 3);

    // The same texture twice consumes two slots: no deduplication.
    batch.add_textured_rect(unit_uv_rect(3, 0, 10, 10), &first, Vec4Fx::one());
    assert_eq!(batch.vertices[12].slot, 3);

    let binds: Vec<(u32, u32)> = batch
        .texture_binds
        .iter()
        .map(|b| (b.unit, b.texture))
        .collect();
    assert_eq!(binds, vec![(1, 100), (2, 200), (3, 100)]);

    batch.reset();
    batch.add_textured_rect(unit_uv_rect(0, 0, 10, 10), &second, Vec4Fx::one());
    assert_eq!(batch.vertices[0].slot, 1);
    assert_eq!(batch.texture_binds.len(), 1);
}

#[test]
fn reset_then_draw_submits_nothing() {
    let mut batch = fresh_batch();
    batch.add_rect(unit_uv_rect(0, 0, 5, 5), red());
    batch.reset();
    let submission = batch.draw();
    assert!(submission.vertices.is_empty());
    assert_eq!(submission.draw.index_count, 0);
    assert!(submission.texture_binds.is_empty());
}

#[test]
fn index_pattern_is_static_across_cycles() {
    let mut batch = fresh_batch();
    let before = batch.indices.clone();
    assert_eq!(before.len(), 6 * MAX_RECTS_IN_BATCH);
    for i in 0..MAX_RECTS_IN_BATCH {
        let four_i = 4 * i as u32;
        assert_eq!(
            &before[6 * i..6 * i + 6],
            &[four_i, four_i + 1, four_i + 2, four_i, four_i + 2, four_i + 3]
        );
    }

    batch.add_rect(unit_uv_rect(0, 0, 5, 5), red());
    let _ = batch.draw();
    batch.reset();
    let _ = batch.draw();
    assert_eq!(batch.indices, before);
}

#[test]
fn filling_to_capacity_stays_inside_the_staging_area() {
    let mut batch = fresh_batch();
    batch.reset();
    for i in 0..MAX_RECTS_IN_BATCH {
        batch.add_rect(unit_uv_rect((i % 100) as i64, 0, 1, 1), red());
    }
    // At capacity: the last write filled the final staging slot and the
    // staging area itself never grew or was overrun.
    assert_eq!(batch.next_rect, MAX_RECTS_IN_BATCH);
    assert_eq!(batch.vertices.len(), 4 * MAX_RECTS_IN_BATCH);
    let submission = batch.draw();
    assert_eq!(submission.vertices.len(), 4 * MAX_RECTS_IN_BATCH);
    assert_eq!(submission.draw.index_count, 6 * MAX_RECTS_IN_BATCH as u32);
}

#[test]
fn one_untextured_and_one_textured_rect_in_one_window() {
    let shader = Shader::new(5);
    let white = Texture::new(1);
    let mut renderer = Renderer2D::new(
        shader,
        white,
        VertexArray::new(20),
        ArrayBuffer::new(21, rect_vertex_layout()),
        IndexBuffer::new(22),
    );

    let white_bind = renderer.begin_batch();
    assert_eq!(white_bind.unit, 0);
    assert_eq!(white_bind.texture, 1);

    renderer.batch_rect(unit_uv_rect(0, 0, 1280, 720), red());
    // Stands for a 2×2 checker image the host uploaded under this handle.
    let checker = Texture::new(33);
    renderer.batch_textured_rect(unit_uv_rect(100, 100, 2, 2), &checker, Vec4Fx::one());

    let frame = renderer.end_batch();
    assert_eq!(frame.shader.program, 5);
    assert_eq!(frame.batch.vertices.len(), 8);
    assert_eq!(frame.batch.draw.index_count, 12);
    assert_eq!(frame.batch.texture_binds.len(), 1);
    assert_eq!(frame.batch.texture_binds[0].unit, 1);
    assert_eq!(frame.batch.texture_binds[0].texture, 33);
}

#[test]
fn slot_capacity_leaves_room_for_31_textures() {
    let mut batch = fresh_batch();
    batch.reset();
    for i in 0..(MAX_TEXTURE_SLOTS - 1) {
        let texture = Texture::new(1000 + i as u32);
        batch.add_textured_rect(unit_uv_rect(i as i64, 0, 1, 1), &texture, Vec4Fx::one());
    }
    assert_eq!(batch.next_texture_slot, MAX_TEXTURE_SLOTS);
    assert_eq!(batch.texture_binds.len(), MAX_TEXTURE_SLOTS - 1);
    for (i, bind) in batch.texture_binds.iter().enumerate() {
        assert_eq!(bind.unit, i as u32 + 1);
        assert_eq!(bind.texture, 1000 + i as u32);
    }
}
