//! The 2D batched renderer.
//!
//! A [`RectBatch`] accumulates rectangle draw requests — textured and
//! untextured — into one shared vertex staging area and a bounded set of
//! texture-unit bindings, between a `reset` and a `draw`. `draw` describes
//! one upload of exactly the live vertex prefix and one indexed draw call
//! over a static, precomputed index pattern. [`Renderer2D`] wires the
//! batch to a shared shader and a default white texture and owns the
//! begin/add/end lifecycle.

use vstd::prelude::*;
use crate::array_buffer::{ArrayBuffer, AttributeType, BufferAttribute, BufferLayout};
use crate::commands::{DrawCall, ShaderBind, TextureBind};
use crate::index_buffer::IndexBuffer;
use crate::math::{Vec2Fx, Vec3Fx, Vec4Fx, FX_ONE, MAX_COORD};
use crate::math::fx_scale;
use crate::renderer::Renderer;
use crate::shader::Shader;
use crate::texture::Texture;
use crate::vertex_array::VertexArray;

verus! {

/// Most rectangles one batch can hold.
pub const MAX_RECTS_IN_BATCH: usize = 512;

/// Vertices the staging area holds: four corners per rectangle.
pub const MAX_VERTS_IN_BATCH: usize = MAX_RECTS_IN_BATCH * 4;

/// Indices the static index buffer holds: six per rectangle.
pub const MAX_INDICES_IN_BATCH: usize = MAX_RECTS_IN_BATCH * 6;

/// Texture units the shader can address; unit 0 is reserved for the
/// batch-wide default texture.
pub const MAX_TEXTURE_SLOTS: usize = 32;

/// Stores a rectangle: an anchor position (its `z` orders overlapping
/// rectangles by depth), a size, a pivot in the unit range locating the
/// anchor within the rectangle (0,0 bottom-left, `FX_ONE`,`FX_ONE`
/// top-right), and the texture sub-rectangle `uv_min`..`uv_max` it shows.
#[derive(Clone, Copy, PartialEq, Eq, Structural, Debug)]
pub struct Rect {
    pub position: Vec3Fx,
    pub size: Vec2Fx,
    pub pivot: Vec2Fx,
    pub uv_min: Vec2Fx,
    pub uv_max: Vec2Fx,
}

impl Rect {
    /// Bounded coordinates, a non-negative size and a pivot in the unit
    /// range: what the corner arithmetic needs to stay exact and within
    /// the 64-bit range.
    pub open spec fn wf(self) -> bool {
        &&& -MAX_COORD <= self.position.x <= MAX_COORD
        &&& -MAX_COORD <= self.position.y <= MAX_COORD
        &&& 0 <= self.size.x <= MAX_COORD
        &&& 0 <= self.size.y <= MAX_COORD
        &&& 0 <= self.pivot.x <= FX_ONE
        &&& 0 <= self.pivot.y <= FX_ONE
    }

    /// Creates a new `Rect`.
    pub fn new(
        position: Vec3Fx,
        size: Vec2Fx,
        pivot: Vec2Fx,
        uv_min: Vec2Fx,
        uv_max: Vec2Fx,
    ) -> (r: Self)
        ensures
            r == (Rect { position, size, pivot, uv_min, uv_max }),
    {
        Rect { position, size, pivot, uv_min, uv_max }
    }

    /// The left bound: `position.x − size.x · pivot.x`.
    pub open spec fn left_math(self) -> int {
        self.position.x - (self.size.x * self.pivot.x) / (FX_ONE as int)
    }

    /// The right bound: `position.x + size.x · (1 − pivot.x)`.
    pub open spec fn right_math(self) -> int {
        self.position.x + (self.size.x * (FX_ONE - self.pivot.x)) / (FX_ONE as int)
    }

    /// The bottom bound: `position.y − size.y · pivot.y`.
    pub open spec fn bottom_math(self) -> int {
        self.position.y - (self.size.y * self.pivot.y) / (FX_ONE as int)
    }

    /// The top bound: `position.y + size.y · (1 − pivot.y)`.
    pub open spec fn top_math(self) -> int {
        self.position.y + (self.size.y * (FX_ONE - self.pivot.y)) / (FX_ONE as int)
    }

    /// Get left bound.
    pub fn left(&self) -> (r: i64)
        requires
            self.wf(),
        ensures
            r == self.left_math(),
    {
        self.position.x - fx_scale(self.size.x, self.pivot.x)
    }

    /// Get right bound.
    pub fn right(&self) -> (r: i64)
        requires
            self.wf(),
        ensures
            r == self.right_math(),
    {
        self.position.x + fx_scale(self.size.x, FX_ONE - self.pivot.x)
    }

    /// Get bottom bound.
    pub fn bottom(&self) -> (r: i64)
        requires
            self.wf(),
        ensures
            r == self.bottom_math(),
    {
        self.position.y - fx_scale(self.size.y, self.pivot.y)
    }

    /// Get top bound.
    pub fn top(&self) -> (r: i64)
        requires
            self.wf(),
        ensures
            r == self.top_math(),
    {
        self.position.y + fx_scale(self.size.y, FX_ONE - self.pivot.y)
    }

    /// Get all bounds (left, right, top, bottom).
    pub fn bounds(&self) -> (r: (i64, i64, i64, i64))
        requires
            self.wf(),
        ensures
            r.0 == self.left_math(),
            r.1 == self.right_math(),
            r.2 == self.top_math(),
            r.3 == self.bottom_math(),
    {
        (self.left(), self.right(), self.top(), self.bottom())
    }
}

/// One corner of a rectangle in the batch's vertex stream.
#[derive(Clone, Copy, PartialEq, Eq, Structural, Debug)]
pub struct RectVertex {
    pub position: Vec3Fx,
    pub uv: Vec2Fx,
    pub color: Vec4Fx,
    pub slot: i32,
}

impl RectVertex {
    pub fn new(position: Vec3Fx, uv: Vec2Fx, color: Vec4Fx, slot: i32) -> (r: Self)
        ensures
            r == (RectVertex { position, uv, color, slot }),
    {
        RectVertex { position, uv, color, slot }
    }

    /// The all-zero vertex that fills the staging area before any
    /// rectangle is written.
    pub open spec fn zeroed() -> RectVertex {
        RectVertex {
            position: Vec3Fx { x: 0, y: 0, z: 0 },
            uv: Vec2Fx { x: 0, y: 0 },
            color: Vec4Fx { x: 0, y: 0, z: 0, w: 0 },
            slot: 0,
        }
    }
}

impl Default for RectVertex {
    fn default() -> (r: Self)
        ensures
            r == RectVertex::zeroed(),
    {
        RectVertex {
            position: Vec3Fx { x: 0, y: 0, z: 0 },
            uv: Vec2Fx { x: 0, y: 0 },
            color: Vec4Fx { x: 0, y: 0, z: 0, w: 0 },
            slot: 0,
        }
    }
}

/// Corner `k` of a rectangle, in the batch's fixed winding order:
/// bottom-left, bottom-right, top-right, top-left, carrying the matching
/// corner of the texture sub-rectangle.
pub open spec fn corner_vertex(rect: Rect, color: Vec4Fx, slot: i32, k: int) -> RectVertex {
    RectVertex {
        position: Vec3Fx {
            x: (if k == 1 || k == 2 {
                rect.right_math()
            } else {
                rect.left_math()
            }) as i64,
            y: (if k == 2 || k == 3 {
                rect.top_math()
            } else {
                rect.bottom_math()
            }) as i64,
            z: rect.position.z,
        },
        uv: Vec2Fx {
            x: if k == 1 || k == 2 {
                rect.uv_max.x
            } else {
                rect.uv_min.x
            },
            y: if k == 2 || k == 3 {
                rect.uv_max.y
            } else {
                rect.uv_min.y
            },
        },
        color,
        slot,
    }
}

/// The six index offsets of one quad, in triangle-list order.
pub open spec fn pattern_offset(j: int) -> int {
    if j == 0 {
        0
    } else if j == 1 {
        1
    } else if j == 2 {
        2
    } else if j == 3 {
        0
    } else if j == 4 {
        2
    } else {
        3
    }
}

/// Entry `i` of the static index buffer: rectangle `i / 6` uses vertices
/// `4·(i/6)` plus the offset pattern `0, 1, 2, 0, 2, 3`.
pub open spec fn index_pattern_entry(i: int) -> u32 {
    (4 * (i / 6) + pattern_offset(i % 6)) as u32
}

/// The full content of the static index buffer, precomputed once at
/// construction for `MAX_RECTS_IN_BATCH` quads and never regenerated.
pub open spec fn batch_index_pattern() -> Seq<u32> {
    Seq::new(MAX_INDICES_IN_BATCH as nat, |i: int| index_pattern_entry(i))
}

/// The abstract state of a [`RectBatch`]: the staging vertices, the
/// static index content, both counters, the texture bindings recorded
/// since the last reset, and the three device handles the batch draws
/// with.
#[verifier::ext_equal]
pub struct BatchModel {
    pub vertices: Seq<RectVertex>,
    pub indices: Seq<u32>,
    pub next_rect: int,
    pub next_texture_slot: int,
    pub texture_binds: Seq<TextureBind>,
    pub vertex_array: u32,
    pub vertex_buffer: u32,
    pub index_buffer: u32,
}

impl BatchModel {
    /// The batch invariant: a full-capacity staging area, counters within
    /// their hard bounds, the index content equal to the static pattern,
    /// and one recorded binding per assigned texture slot, unit `i + 1`
    /// at position `i`.
    pub open spec fn inv(self) -> bool {
        &&& self.vertices.len() == MAX_VERTS_IN_BATCH
        &&& 0 <= self.next_rect <= MAX_RECTS_IN_BATCH
        &&& 1 <= self.next_texture_slot <= MAX_TEXTURE_SLOTS
        &&& self.indices == batch_index_pattern()
        &&& self.texture_binds.len() == self.next_texture_slot - 1
        &&& forall|i: int|
            0 <= i < self.texture_binds.len() ==> #[trigger] self.texture_binds[i].unit == i + 1
    }
}

/// What `reset` does: rewind both counters and forget the recorded
/// bindings; the staging vertices, the index content and the handles are
/// untouched.
pub open spec fn reset_spec(m: BatchModel) -> BatchModel {
    BatchModel { next_rect: 0, next_texture_slot: 1, texture_binds: Seq::empty(), ..m }
}

/// Write the four corners of a rectangle at `base`: vertex `base + k` is
/// corner `k`.
pub open spec fn write_corners(
    vs: Seq<RectVertex>,
    base: int,
    rect: Rect,
    color: Vec4Fx,
    slot: i32,
) -> Seq<RectVertex> {
    vs.update(base + 0, corner_vertex(rect, color, slot, 0)).update(
        base + 1,
        corner_vertex(rect, color, slot, 1),
    ).update(base + 2, corner_vertex(rect, color, slot, 2)).update(
        base + 3,
        corner_vertex(rect, color, slot, 3),
    )
}

/// What `add_rect` does: write the rectangle's corners with slot 0 at the
/// next free position and count it.
pub open spec fn add_rect_spec(m: BatchModel, rect: Rect, color: Vec4Fx) -> BatchModel {
    BatchModel {
        vertices: write_corners(m.vertices, 4 * m.next_rect, rect, color, 0),
        next_rect: m.next_rect + 1,
        ..m
    }
}

/// What `add_textured_rect` does: write the rectangle's corners with the
/// next free texture slot, record that the texture goes to that unit, and
/// advance both counters.
pub open spec fn add_textured_rect_spec(
    m: BatchModel,
    rect: Rect,
    texture: Texture,
    tint: Vec4Fx,
) -> BatchModel {
    BatchModel {
        vertices: write_corners(
            m.vertices,
            4 * m.next_rect,
            rect,
            tint,
            m.next_texture_slot as i32,
        ),
        next_rect: m.next_rect + 1,
        next_texture_slot: m.next_texture_slot + 1,
        texture_binds: m.texture_binds.push(
            TextureBind { unit: m.next_texture_slot as u32, texture: texture.id },
        ),
        ..m
    }
}

/// Everything one `draw` asks of the host: upload `vertices` into the
/// batch's vertex buffer, perform the recorded texture bindings, and
/// issue the draw call.
#[derive(Debug)]
pub struct BatchSubmission {
    pub vertex_buffer: u32,
    pub vertices: Vec<RectVertex>,
    pub texture_binds: Vec<TextureBind>,
    pub draw: DrawCall,
}

/// `s` submits exactly the live prefix of the batch `m`: `4 · next_rect`
/// vertex records uploaded, `6 · next_rect` indices drawn, and the
/// recorded texture bindings, nothing else.
pub open spec fn is_submission(s: BatchSubmission, m: BatchModel) -> bool {
    &&& s.vertex_buffer == m.vertex_buffer
    &&& s.vertices@ == m.vertices.subrange(0, 4 * m.next_rect)
    &&& s.texture_binds@ == m.texture_binds
    &&& s.draw == (DrawCall { vertex_array: m.vertex_array, index_count: (6 * m.next_rect) as u32 })
}

/// A batch as construction leaves it: empty counters, a zeroed staging
/// area of full capacity, the static index pattern, and the given device
/// handles.
pub open spec fn is_fresh_batch(m: BatchModel, va: u32, vb: u32, ib: u32) -> bool {
    &&& m.inv()
    &&& m.next_rect == 0
    &&& m.next_texture_slot == 1
    &&& m.texture_binds == Seq::<TextureBind>::empty()
    &&& m.vertices == Seq::new(MAX_VERTS_IN_BATCH as nat, |i: int| RectVertex::zeroed())
    &&& m.vertex_array == va
    &&& m.vertex_buffer == vb
    &&& m.index_buffer == ib
}

/// THE CORE: accumulates rectangle draw requests between `reset` and
/// `draw` in a fixed-capacity staging area, assigning texture units
/// upward from 1 as textured rectangles arrive.
#[derive(Debug)]
pub struct RectBatch {
    pub vertices: Vec<RectVertex>,
    pub indices: Vec<u32>,
    pub next_rect: usize,
    pub next_texture_slot: usize,
    pub texture_binds: Vec<TextureBind>,
    pub vertex_array: VertexArray,
    pub vertex_buffer: ArrayBuffer,
    pub index_buffer: IndexBuffer,
}

impl View for RectBatch {
    type V = BatchModel;

    open spec fn view(&self) -> BatchModel {
        BatchModel {
            vertices: self.vertices@,
            indices: self.indices@,
            next_rect: self.next_rect as int,
            next_texture_slot: self.next_texture_slot as int,
            texture_binds: self.texture_binds@,
            vertex_array: self.vertex_array.id,
            vertex_buffer: self.vertex_buffer.id,
            index_buffer: self.index_buffer.id,
        }
    }
}

impl RectBatch {
    /// Creates a new `RectBatch` over host-allocated device objects: a
    /// zeroed staging area for `MAX_RECTS_IN_BATCH` rectangles and the
    /// precomputed index pattern, ready for the host to upload.
    pub fn new(
        vertex_array: VertexArray,
        vertex_buffer: ArrayBuffer,
        index_buffer: IndexBuffer,
    ) -> (r: Self)
        ensures
            is_fresh_batch(r@, vertex_array.id, vertex_buffer.id, index_buffer.id),
    {
        let mut vertices: Vec<RectVertex> = Vec::new();
        let mut i: usize = 0;
        while i < MAX_VERTS_IN_BATCH
            invariant
                i <= MAX_VERTS_IN_BATCH,
                vertices@.len() == i,
                forall|j: int| 0 <= j < i ==> vertices@[j] == RectVertex::zeroed(),
            decreases MAX_VERTS_IN_BATCH - i,
        {
            vertices.push(RectVertex::default());
            i = i + 1;
        }

        let mut indices: Vec<u32> = Vec::new();
        let mut rect: usize = 0;
        while rect < MAX_RECTS_IN_BATCH
            invariant
                rect <= MAX_RECTS_IN_BATCH,
                indices@.len() == 6 * rect,
                forall|k: int| 0 <= k < 6 * rect ==> indices@[k] == index_pattern_entry(k),
            decreases MAX_RECTS_IN_BATCH - rect,
        {
            let vertex = (rect * 4) as u32;
            proof {
                lemma_pattern_block(rect as int);
            }
            indices.push(vertex + 0);
            indices.push(vertex + 1);
            indices.push(vertex + 2);
            indices.push(vertex + 0);
            indices.push(vertex + 2);
            indices.push(vertex + 3);
            rect = rect + 1;
        }

        let r = RectBatch {
            vertices,
            indices,
            next_rect: 0,
            next_texture_slot: 1,
            texture_binds: Vec::new(),
            vertex_array,
            vertex_buffer,
            index_buffer,
        };
        proof {
            assert(r@.indices =~= batch_index_pattern());
            assert(r@.vertices =~= Seq::new(MAX_VERTS_IN_BATCH as nat, |i: int| RectVertex::zeroed()));
        }
        r
    }

    /// Rewind the batch: both counters back to their start and the
    /// recorded bindings dropped. Pure counter rewind — the staging
    /// memory is not cleared, and `draw` never reads past the live
    /// prefix.
    pub fn reset(&mut self)
        ensures
            final(self)@ == reset_spec(old(self)@),
            old(self)@.inv() ==> final(self)@.inv(),
    {
        self.next_rect = 0;
        self.next_texture_slot = 1;
        self.texture_binds.clear();
        proof {
            assert(final(self)@ =~= reset_spec(old(self)@));
        }
    }

    /// Append an untextured quad: four corner vertices with slot 0 (the
    /// default texture's unit) and the given color. The caller must leave
    /// room — writing while at capacity is a contract violation, not a
    /// silent wrap or flush.
    pub fn add_rect(&mut self, rect: Rect, color: Vec4Fx)
        requires
            old(self)@.inv(),
            old(self)@.next_rect < MAX_RECTS_IN_BATCH,
            rect.wf(),
        ensures
            final(self)@ == add_rect_spec(old(self)@, rect, color),
            final(self)@.inv(),
    {
        let bounds = rect.bounds();
        let i = self.next_rect * 4;
        self.vertices.set(
            i + 0,
            RectVertex::new(Vec3Fx::new(bounds.0, bounds.3, rect.position.z), rect.uv_min, color, 0),
        );
        self.vertices.set(
            i + 1,
            RectVertex::new(
                Vec3Fx::new(bounds.1, bounds.3, rect.position.z),
                Vec2Fx::new(rect.uv_max.x, rect.uv_min.y),
                color,
                0,
            ),
        );
        self.vertices.set(
            i + 2,
            RectVertex::new(Vec3Fx::new(bounds.1, bounds.2, rect.position.z), rect.uv_max, color, 0),
        );
        self.vertices.set(
            i + 3,
            RectVertex::new(
                Vec3Fx::new(bounds.0, bounds.2, rect.position.z),
                Vec2Fx::new(rect.uv_min.x, rect.uv_max.y),
                color,
                0,
            ),
        );
        self.next_rect = self.next_rect + 1;
        proof {
            assert(final(self)@ =~= add_rect_spec(old(self)@, rect, color));
        }
    }

    /// Append a textured quad: four corner vertices carrying the next
    /// free texture slot and the given tint, and a recorded binding of
    /// the texture to that unit. Each call consumes one slot — repeated
    /// textures are not deduplicated — so the caller must leave both a
    /// rectangle and a texture slot free.
    pub fn add_textured_rect(&mut self, rect: Rect, texture: &Texture, tint: Vec4Fx)
        requires
            old(self)@.inv(),
            old(self)@.next_rect < MAX_RECTS_IN_BATCH,
            old(self)@.next_texture_slot < MAX_TEXTURE_SLOTS,
            rect.wf(),
        ensures
            final(self)@ == add_textured_rect_spec(old(self)@, rect, *texture, tint),
            final(self)@.inv(),
    {
        let bounds = rect.bounds();
        let i = self.next_rect * 4;
        let slot = self.next_texture_slot as i32;
        self.vertices.set(
            i + 0,
            RectVertex::new(Vec3Fx::new(bounds.0, bounds.3, rect.position.z), rect.uv_min, tint, slot),
        );
        self.vertices.set(
            i + 1,
            RectVertex::new(
                Vec3Fx::new(bounds.1, bounds.3, rect.position.z),
                Vec2Fx::new(rect.uv_max.x, rect.uv_min.y),
                tint,
                slot,
            ),
        );
        self.vertices.set(
            i + 2,
            RectVertex::new(Vec3Fx::new(bounds.1, bounds.2, rect.position.z), rect.uv_max, tint, slot),
        );
        self.vertices.set(
            i + 3,
            RectVertex::new(
                Vec3Fx::new(bounds.0, bounds.2, rect.position.z),
                Vec2Fx::new(rect.uv_min.x, rect.uv_max.y),
                tint,
                slot,
            ),
        );
        self.next_rect = self.next_rect + 1;

        let bind = texture.bind_to_slot(self.next_texture_slot as u32);
        self.texture_binds.push(bind);
        self.next_texture_slot = self.next_texture_slot + 1;
        proof {
            assert(final(self)@ =~= add_textured_rect_spec(old(self)@, rect, *texture, tint));
        }
    }

    /// Describe one draw of the batch: upload exactly the live prefix —
    /// `4 · next_rect` vertex records, never the full staging area — and
    /// draw `6 · next_rect` indices from the static index buffer. Safe
    /// with zero rectangles: the submission is then an empty upload and a
    /// zero-count draw. Read-only; `reset` must be called explicitly
    /// before the batch is reused.
    pub fn draw(&self) -> (r: BatchSubmission)
        requires
            self@.inv(),
        ensures
            is_submission(r, self@),
    {
        let count = self.next_rect * 4;
        let mut verts: Vec<RectVertex> = Vec::new();
        let mut i: usize = 0;
        while i < count
            invariant
                count == 4 * self@.next_rect,
                self@.inv(),
                i <= count,
                verts@.len() == i,
                forall|j: int| 0 <= j < i ==> verts@[j] == self@.vertices[j],
            decreases count - i,
        {
            verts.push(self.vertices[i]);
            i = i + 1;
        }

        let mut binds: Vec<TextureBind> = Vec::new();
        let mut b: usize = 0;
        let nb = self.texture_binds.len();
        while b < nb
            invariant
                nb == self@.texture_binds.len(),
                self@.inv(),
                b <= nb,
                binds@.len() == b,
                forall|j: int| 0 <= j < b ==> binds@[j] == self@.texture_binds[j],
            decreases nb - b,
        {
            binds.push(self.texture_binds[b]);
            b = b + 1;
        }

        let draw = Renderer::draw_elements(&self.vertex_array, (self.next_rect * 6) as u32);
        let r = BatchSubmission { vertex_buffer: self.vertex_buffer.id, vertices: verts, texture_binds: binds, draw };
        proof {
            assert(r.vertices@ =~= self@.vertices.subrange(0, 4 * self@.next_rect));
            assert(r.texture_binds@ =~= self@.texture_binds);
        }
        r
    }
}

/// The six pattern entries of rectangle `r` start at `6·r` and are
/// `4·r + 0, 1, 2, 0, 2, 3`.
pub proof fn lemma_pattern_block(r: int)
    requires
        0 <= r < MAX_RECTS_IN_BATCH,
    ensures
        index_pattern_entry(6 * r + 0) == 4 * r + 0,
        index_pattern_entry(6 * r + 1) == 4 * r + 1,
        index_pattern_entry(6 * r + 2) == 4 * r + 2,
        index_pattern_entry(6 * r + 3) == 4 * r + 0,
        index_pattern_entry(6 * r + 4) == 4 * r + 2,
        index_pattern_entry(6 * r + 5) == 4 * r + 3,
{
    lemma_div_mod_block(r, 0);
    lemma_div_mod_block(r, 1);
    lemma_div_mod_block(r, 2);
    lemma_div_mod_block(r, 3);
    lemma_div_mod_block(r, 4);
    lemma_div_mod_block(r, 5);
}

/// Dividing `6·r + j` by six recovers the block `r` and the offset `j`.
proof fn lemma_div_mod_block(r: int, j: int)
    requires
        0 <= r,
        0 <= j < 6,
    ensures
        (6 * r + j) / 6 == r,
        (6 * r + j) % 6 == j,
{
    vstd::arithmetic::div_mod::lemma_fundamental_div_mod_converse(6 * r + j, 6, r, j);
}

/// The attributes of one [`RectVertex`] record as the shader reads them:
/// a 3D position, a 2D texture coordinate, an RGBA color and an integer
/// texture slot.
pub open spec fn rect_vertex_attributes() -> Seq<BufferAttribute> {
    seq![
        BufferAttribute { attribute_type: AttributeType::Vec3f, normalized: false },
        BufferAttribute { attribute_type: AttributeType::Vec2f, normalized: false },
        BufferAttribute { attribute_type: AttributeType::Vec4f, normalized: false },
        BufferAttribute { attribute_type: AttributeType::Int, normalized: false },
    ]
}

/// Build the vertex-buffer layout every rectangle vertex uses; its stride
/// is the 40 bytes one device-side record occupies.
pub fn rect_vertex_layout() -> (r: BufferLayout)
    ensures
        r.wf(),
        r.attributes@ == rect_vertex_attributes(),
        r.stride == 40,
{
    let mut attributes: Vec<BufferAttribute> = Vec::new();
    attributes.push(BufferAttribute::new(AttributeType::Vec3f, false));
    attributes.push(BufferAttribute::new(AttributeType::Vec2f, false));
    attributes.push(BufferAttribute::new(AttributeType::Vec4f, false));
    attributes.push(BufferAttribute::new(AttributeType::Int, false));
    proof {
        assert(attributes@ =~= rect_vertex_attributes());
    }
    let r = BufferLayout::new(attributes);
    proof {
        reveal_with_fuel(crate::array_buffer::prefix_size, 5);
    }
    r
}

/// The values the host loads into the shader's sampler-array uniform:
/// sampler `i` reads texture unit `i`, for all `MAX_TEXTURE_SLOTS` units.
pub fn texture_slot_indices() -> (r: Vec<i32>)
    ensures
        r@.len() == MAX_TEXTURE_SLOTS,
        forall|i: int| 0 <= i < MAX_TEXTURE_SLOTS ==> r@[i] == i,
{
    let mut slots: Vec<i32> = Vec::new();
    let mut i: usize = 0;
    while i < MAX_TEXTURE_SLOTS
        invariant
            i <= MAX_TEXTURE_SLOTS,
            slots@.len() == i,
            forall|j: int| 0 <= j < i ==> slots@[j] == j,
        decreases MAX_TEXTURE_SLOTS - i,
    {
        slots.push(i as i32);
        i = i + 1;
    }
    slots
}

/// Everything one batch flush asks of the host: make the shared shader
/// current, then perform the batch submission.
#[derive(Debug)]
pub struct FrameSubmission {
    pub shader: ShaderBind,
    pub batch: BatchSubmission,
}

/// Everything one immediate-mode draw asks of the host: allocate a
/// throwaway vertex/index buffer pair, upload these four vertices and six
/// indices with this layout, bind the texture to unit 0, make the shader
/// current, and draw.
#[derive(Debug)]
pub struct ImmediateDraw {
    pub shader: ShaderBind,
    pub texture_bind: TextureBind,
    pub layout: BufferLayout,
    pub vertices: Vec<RectVertex>,
    pub indices: Vec<u32>,
}

/// `d` draws the single rectangle `rect` immediately: its four corners
/// with slot 0 and the quad index pattern, under the given shader, with
/// the given texture on unit 0.
pub open spec fn is_immediate_draw(
    d: ImmediateDraw,
    rect: Rect,
    texture: Texture,
    tint: Vec4Fx,
    shader: Shader,
) -> bool {
    &&& d.shader == (ShaderBind { program: shader.program })
    &&& d.texture_bind == (TextureBind { unit: 0, texture: texture.id })
    &&& d.layout.wf()
    &&& d.layout.attributes@ == rect_vertex_attributes()
    &&& d.vertices@.len() == 4
    &&& forall|k: int| 0 <= k < 4 ==> d.vertices@[k] == corner_vertex(rect, tint, 0, k)
    &&& d.indices@ == seq![0u32, 1u32, 2u32, 0u32, 2u32, 3u32]
}

/// Renderer for 2D graphics: owns the shared shader, the default 1×1
/// white texture that untextured rectangles sample through unit 0, and
/// one [`RectBatch`].
#[derive(Debug)]
pub struct Renderer2D {
    pub default_shader: Shader,
    pub default_texture: Texture,
    pub rect_batch: RectBatch,
}

impl Renderer2D {
    /// Creates a new `Renderer2D` around a host-linked shader program, a
    /// host-created default texture, and the three device objects of its
    /// batch. The host has already set the shader's view-projection
    /// matrix and pointed its sampler array at the units
    /// [`texture_slot_indices`] gives.
    pub fn new(
        default_shader: Shader,
        default_texture: Texture,
        vertex_array: VertexArray,
        vertex_buffer: ArrayBuffer,
        index_buffer: IndexBuffer,
    ) -> (r: Self)
        ensures
            r.default_shader == default_shader,
            r.default_texture == default_texture,
            is_fresh_batch(r.rect_batch@, vertex_array.id, vertex_buffer.id, index_buffer.id),
    {
        Renderer2D {
            default_shader,
            default_texture,
            rect_batch: RectBatch::new(vertex_array, vertex_buffer, index_buffer),
        }
    }

    /// Start a batch window: rewind the batch and hand back the binding
    /// of the default white texture to unit 0, which the host must
    /// perform anew every frame — unit bindings are shared device state
    /// any other drawing may have overwritten.
    pub fn begin_batch(&mut self) -> (bind: TextureBind)
        ensures
            final(self).rect_batch@ == reset_spec(old(self).rect_batch@),
            old(self).rect_batch@.inv() ==> final(self).rect_batch@.inv(),
            final(self).default_shader == old(self).default_shader,
            final(self).default_texture == old(self).default_texture,
            bind == (TextureBind { unit: 0, texture: old(self).default_texture.id }),
    {
        self.rect_batch.reset();
        self.default_texture.bind_to_slot(0)
    }

    /// Close a batch window: make the shared shader current and submit
    /// the accumulated batch.
    pub fn end_batch(&self) -> (r: FrameSubmission)
        requires
            self.rect_batch@.inv(),
        ensures
            r.shader == (ShaderBind { program: self.default_shader.program }),
            is_submission(r.batch, self.rect_batch@),
    {
        let shader = self.default_shader.bind();
        let batch = self.rect_batch.draw();
        FrameSubmission { shader, batch }
    }

    /// Append an untextured rectangle to the current batch.
    pub fn batch_rect(&mut self, rect: Rect, color: Vec4Fx)
        requires
            old(self).rect_batch@.inv(),
            old(self).rect_batch@.next_rect < MAX_RECTS_IN_BATCH,
            rect.wf(),
        ensures
            final(self).rect_batch@ == add_rect_spec(old(self).rect_batch@, rect, color),
            final(self).rect_batch@.inv(),
            final(self).default_shader == old(self).default_shader,
            final(self).default_texture == old(self).default_texture,
    {
        self.rect_batch.add_rect(rect, color);
    }

    /// Append a textured rectangle to the current batch.
    pub fn batch_textured_rect(&mut self, rect: Rect, texture: &Texture, tint: Vec4Fx)
        requires
            old(self).rect_batch@.inv(),
            old(self).rect_batch@.next_rect < MAX_RECTS_IN_BATCH,
            old(self).rect_batch@.next_texture_slot < MAX_TEXTURE_SLOTS,
            rect.wf(),
        ensures
            final(self).rect_batch@ == add_textured_rect_spec(
                old(self).rect_batch@,
                rect,
                *texture,
                tint,
            ),
            final(self).rect_batch@.inv(),
            final(self).default_shader == old(self).default_shader,
            final(self).default_texture == old(self).default_texture,
    {
        self.rect_batch.add_textured_rect(rect, texture, tint);
    }

    /// Draw a rect immediately, outside any batch, in the default
    /// texture's uniform white.
    pub fn draw_rect(&self, rect: Rect, color: Vec4Fx) -> (r: ImmediateDraw)
        requires
            rect.wf(),
        ensures
            is_immediate_draw(r, rect, self.default_texture, color, self.default_shader),
    {
        self.draw_textured_rect(rect, &self.default_texture, color)
    }

    /// Draw a textured rect immediately, outside any batch: a throwaway
    /// four-vertex, six-index draw with the texture on unit 0. No
    /// batching invariants apply; the host submits it at once.
    pub fn draw_textured_rect(
        &self,
        rect: Rect,
        texture: &Texture,
        tint: Vec4Fx,
    ) -> (r: ImmediateDraw)
        requires
            rect.wf(),
        ensures
            is_immediate_draw(r, rect, *texture, tint, self.default_shader),
    {
        let bounds = rect.bounds();
        let mut vertices: Vec<RectVertex> = Vec::new();
        vertices.push(
            RectVertex::new(Vec3Fx::new(bounds.0, bounds.3, rect.position.z), rect.uv_min, tint, 0),
        );
        vertices.push(
            RectVertex::new(
                Vec3Fx::new(bounds.1, bounds.3, rect.position.z),
                Vec2Fx::new(rect.uv_max.x, rect.uv_min.y),
                tint,
                0,
            ),
        );
        vertices.push(
            RectVertex::new(Vec3Fx::new(bounds.1, bounds.2, rect.position.z), rect.uv_max, tint, 0),
        );
        vertices.push(
            RectVertex::new(
                Vec3Fx::new(bounds.0, bounds.2, rect.position.z),
                Vec2Fx::new(rect.uv_min.x, rect.uv_max.y),
                tint,
                0,
            ),
        );

        let mut indices: Vec<u32> = Vec::new();
        indices.push(0);
        indices.push(1);
        indices.push(2);
        indices.push(0);
        indices.push(2);
        indices.push(3);
        proof {
            assert(indices@ =~= seq![0u32, 1u32, 2u32, 0u32, 2u32, 3u32]);
        }

        ImmediateDraw {
            shader: self.default_shader.bind(),
            texture_bind: texture.bind_to_slot(0),
            layout: rect_vertex_layout(),
            vertices,
            indices,
        }
    }
}

} // verus!
