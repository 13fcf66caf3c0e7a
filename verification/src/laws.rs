//! Batch-window laws.
//!
//! These proof functions state, once and for a whole window, what the
//! per-call contracts of [`RectBatch`](crate::renderer_2d::RectBatch)
//! add up to: a reset followed by any valid sequence of adds leaves the
//! counters, the bindings and the submission sizes fully determined, and
//! the static index content untouched.

use vstd::prelude::*;
use crate::commands::TextureBind;
use crate::math::Vec4Fx;
use crate::renderer_2d::{
    add_rect_spec, add_textured_rect_spec, is_submission, reset_spec, BatchModel, BatchSubmission,
    Rect, RectVertex, MAX_RECTS_IN_BATCH, MAX_TEXTURE_SLOTS,
};
use crate::texture::Texture;

verus! {

/// One rectangle draw request of a batch window.
#[derive(Clone, Copy, PartialEq, Eq, Structural, Debug)]
pub enum RectRequest {
    Plain { rect: Rect, color: Vec4Fx },
    Textured { rect: Rect, texture: Texture, tint: Vec4Fx },
}

/// The state change one request makes: exactly what `add_rect` or
/// `add_textured_rect` ensures.
pub open spec fn apply_request(m: BatchModel, r: RectRequest) -> BatchModel {
    match r {
        RectRequest::Plain { rect, color } => add_rect_spec(m, rect, color),
        RectRequest::Textured { rect, texture, tint } => add_textured_rect_spec(
            m,
            rect,
            texture,
            tint,
        ),
    }
}

/// The state after a sequence of requests, applied in order.
pub open spec fn apply_requests(m: BatchModel, rs: Seq<RectRequest>) -> BatchModel
    decreases rs.len(),
{
    if rs.len() == 0 {
        m
    } else {
        apply_request(apply_requests(m, rs.drop_last()), rs.last())
    }
}

/// How many of the requests are textured: each consumes one texture
/// slot.
pub open spec fn textured_count(rs: Seq<RectRequest>) -> int
    decreases rs.len(),
{
    if rs.len() == 0 {
        0
    } else {
        textured_count(rs.drop_last()) + if rs.last() is Textured {
            1int
        } else {
            0int
        }
    }
}

/// Law: a reset followed by any sequence of `N ≤ MAX_RECTS_IN_BATCH`
/// adds, of which at most `MAX_TEXTURE_SLOTS − 1` are textured, keeps
/// the batch invariant and leaves `next_rect == N`, one texture slot
/// assigned per textured request counting upward from 1, the staging
/// capacity unchanged, and the static index content unchanged.
pub proof fn lemma_batch_window(m: BatchModel, rs: Seq<RectRequest>)
    requires
        m.inv(),
        rs.len() <= MAX_RECTS_IN_BATCH,
        textured_count(rs) <= MAX_TEXTURE_SLOTS - 1,
    ensures
        apply_requests(reset_spec(m), rs).inv(),
        apply_requests(reset_spec(m), rs).next_rect == rs.len(),
        apply_requests(reset_spec(m), rs).next_texture_slot == 1 + textured_count(rs),
        apply_requests(reset_spec(m), rs).texture_binds.len() == textured_count(rs),
        apply_requests(reset_spec(m), rs).vertices.len() == m.vertices.len(),
        apply_requests(reset_spec(m), rs).indices == m.indices,
        apply_requests(reset_spec(m), rs).vertex_array == m.vertex_array,
        apply_requests(reset_spec(m), rs).vertex_buffer == m.vertex_buffer,
    decreases rs.len(),
{
    lemma_textured_count_bounds(rs);
    if rs.len() > 0 {
        lemma_textured_count_bounds(rs.drop_last());
        lemma_batch_window(m, rs.drop_last());
    }
}

/// The textured requests among `rs` number at least zero and at most
/// all of `rs`.
pub proof fn lemma_textured_count_bounds(rs: Seq<RectRequest>)
    ensures
        0 <= textured_count(rs) <= rs.len(),
    decreases rs.len(),
{
    if rs.len() > 0 {
        lemma_textured_count_bounds(rs.drop_last());
    }
}

/// Law: a submission of a batch holding `next_rect` rectangles uploads
/// exactly `4 · next_rect` vertex records and draws exactly
/// `6 · next_rect` indices.
pub proof fn lemma_submission_counts(m: BatchModel, s: BatchSubmission)
    requires
        m.inv(),
        is_submission(s, m),
    ensures
        s.vertices@.len() == 4 * m.next_rect,
        s.draw.index_count == 6 * m.next_rect,
{
}

/// Law: a reset followed immediately by a draw submits no vertex record
/// and a zero-count draw call — stale staging data past the live prefix
/// is never part of a submission.
pub proof fn lemma_reset_then_draw_is_empty(m: BatchModel, s: BatchSubmission)
    requires
        m.inv(),
        is_submission(s, reset_spec(m)),
    ensures
        s.vertices@ == Seq::<RectVertex>::empty(),
        s.draw.index_count == 0,
        s.texture_binds@ == Seq::<TextureBind>::empty(),
{
    assert(s.vertices@ =~= Seq::<RectVertex>::empty());
    assert(s.texture_binds@ =~= Seq::<TextureBind>::empty());
}

} // verus!
