//! Texture handle and image-row flipping.

use vstd::prelude::*;
use crate::commands::TextureBind;

verus! {

/// A texture: the handle of a device texture the host created and filled
/// with pixel data.
#[derive(Clone, Copy, PartialEq, Eq, Structural, Debug)]
pub struct Texture {
    pub id: u32,
}

impl Texture {
    /// Creates a new `Texture` around a host-allocated texture handle.
    pub fn new(id: u32) -> (r: Self)
        ensures
            r == (Texture { id }),
    {
        Texture { id }
    }

    /// Make this texture the active `Texture` in a chosen slot.
    pub fn bind_to_slot(&self, slot: u32) -> (r: TextureBind)
        ensures
            r == (TextureBind { unit: slot, texture: self.id }),
    {
        TextureBind { unit: slot, texture: self.id }
    }
}

/// A pixel whose row and column are in range lies inside the image.
proof fn lemma_row_col_in_range(height: int, pitch: int, row: int, col: int)
    requires
        0 <= row < height,
        0 <= col < pitch,
    ensures
        0 <= row * pitch + col < height * pitch,
{
    assert(0 <= row * pitch + col) by (nonlinear_arith)
        requires
            0 <= row,
            0 <= col,
            0 < pitch,
    ;
    assert(row * pitch + col < height * pitch) by (nonlinear_arith)
        requires
            row < height,
            0 <= col < pitch,
    ;
}

/// Where the byte at position `k` of a flipped image comes from in the
/// unflipped one: same column, mirrored row.
pub open spec fn flipped_index(k: int, height: int, pitch: int) -> int {
    (height - 1 - k / pitch) * pitch + k % pitch
}

/// Turn an image the right way up: image files hand rows top-first while
/// the device expects them bottom-first. Row `i` of the result is row
/// `height - 1 - i` of the input; `pitch` is the size of one row in
/// bytes.
pub fn flip_rows_vertically(pixels: &Vec<u8>, height: usize, pitch: usize) -> (r: Vec<u8>)
    requires
        pixels@.len() == height * pitch,
        height * pitch <= usize::MAX,
    ensures
        r@.len() == pixels@.len(),
        forall|k: int|
            0 <= k < r@.len() ==> r@[k] == pixels@[flipped_index(
                k,
                height as int,
                pitch as int,
            )],
{
    let mut out: Vec<u8> = Vec::new();
    let mut row: usize = 0;
    while row < height
        invariant
            pixels@.len() == height * pitch,
            height * pitch <= usize::MAX,
            row <= height,
            out@.len() == row * pitch,
            forall|k: int|
                0 <= k < out@.len() ==> out@[k] == pixels@[flipped_index(
                    k,
                    height as int,
                    pitch as int,
                )],
        decreases height - row,
    {
        let src_row = height - 1 - row;
        let mut col: usize = 0;
        while col < pitch
            invariant
                pixels@.len() == height * pitch,
                height * pitch <= usize::MAX,
                row < height,
                src_row == height - 1 - row,
                col <= pitch,
                out@.len() == row * pitch + col,
                forall|k: int|
                    0 <= k < out@.len() ==> out@[k] == pixels@[flipped_index(
                        k,
                        height as int,
                        pitch as int,
                    )],
            decreases pitch - col,
        {
            proof {
                lemma_row_col_in_range(height as int, pitch as int, src_row as int, col as int);
                lemma_row_col_in_range(height as int, pitch as int, row as int, col as int);
                vstd::arithmetic::div_mod::lemma_fundamental_div_mod_converse(
                    row * pitch + col,
                    pitch as int,
                    row as int,
                    col as int,
                );
                assert(flipped_index(row * pitch + col, height as int, pitch as int) == src_row
                    * pitch + col);
            }
            let b = pixels[src_row * pitch + col];
            out.push(b);
            col = col + 1;
        }
        proof {
            assert((row + 1) * pitch == row * pitch + pitch) by (nonlinear_arith);
        }
        row = row + 1;
    }
    out
}

} // verus!
