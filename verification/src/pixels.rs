//! Decoded pictures and glyph bitmaps, as the decoders hand them over.
//!
//! The crate does not decode files or rasterise glyphs. The host does, and
//! describes the result with the plain records of this module.

use vstd::arithmetic::div_mod::{lemma_fundamental_div_mod, lemma_fundamental_div_mod_converse};
use vstd::prelude::*;

verus! {

/// How a decoder laid out the channels of each pixel.
#[derive(Clone, Copy, Debug, PartialEq, Eq, Structural)]
pub enum ColorKind {
    /// One 8-bit luminance channel.
    L8,
    /// 8-bit luminance and alpha.
    La8,
    /// 8-bit red, green and blue.
    Rgb8,
    /// 8-bit red, green, blue and alpha.
    Rgba8,
    /// One 16-bit luminance channel.
    L16,
    /// 16-bit luminance and alpha.
    La16,
    /// 16-bit red, green and blue.
    Rgb16,
    /// 16-bit red, green, blue and alpha.
    Rgba16,
    /// 32-bit floating-point red, green and blue.
    Rgb32F,
    /// 32-bit floating-point red, green, blue and alpha.
    Rgba32F,
    /// Any layout that the decoder may add later.
    Other,
}

/// A decoded picture: rows from top to bottom, each row `width` pixels.
#[derive(Debug)]
pub struct DecodedImage {
    pub width: u32,
    pub height: u32,
    pub color: ColorKind,
    pub data: Vec<u8>,
}

/// A rasterised glyph: one byte per pixel, `rows` rows of `width` pixels. The
/// two counts are signed because the rasteriser reports them so; a negative
/// count is an unsigned count beyond the signed range.
#[derive(Debug)]
pub struct GlyphBitmap {
    pub buffer: Vec<u8>,
    pub width: i32,
    pub rows: i32,
}

/// The rows of `data` in reverse order: `rows` rows of `row_bytes` bytes each,
/// the last row first. Bytes of `data` after the last row do not occur.
pub open spec fn flip_rows(data: Seq<u8>, row_bytes: int, rows: int) -> Seq<u8> {
    Seq::new(
        (row_bytes * rows) as nat,
        |i: int| data[(rows - 1 - i / row_bytes) * row_bytes + i % row_bytes],
    )
}

/// Reversing the rows keeps the length, and reversing them twice gives the
/// rows back.
pub proof fn lemma_flip_rows_twice(data: Seq<u8>, row_bytes: int, rows: int)
    requires
        0 <= row_bytes,
        0 <= rows,
        data.len() == row_bytes * rows,
    ensures
        flip_rows(data, row_bytes, rows).len() == data.len(),
        flip_rows(flip_rows(data, row_bytes, rows), row_bytes, rows) == data,
{
    let once = flip_rows(data, row_bytes, rows);
    let twice = flip_rows(once, row_bytes, rows);
    assert forall|i: int| 0 <= i < data.len() implies twice[i] == data[i] by {
        lemma_flipped_index(i, row_bytes, rows);
        let j = (rows - 1 - i / row_bytes) * row_bytes + i % row_bytes;
        lemma_flipped_index(j, row_bytes, rows);
    }
    assert(twice =~= data);
}

/// The byte at `i` moves to the same column of the mirrored row, which lies
/// within the picture, and from there it moves back to `i`.
proof fn lemma_flipped_index(i: int, row_bytes: int, rows: int)
    requires
        0 <= i < row_bytes * rows,
        0 <= rows,
        0 <= row_bytes,
    ensures
        0 <= (rows - 1 - i / row_bytes) * row_bytes + i % row_bytes < row_bytes * rows,
        ((rows - 1 - i / row_bytes) * row_bytes + i % row_bytes) / row_bytes == rows - 1 - i
            / row_bytes,
        ((rows - 1 - i / row_bytes) * row_bytes + i % row_bytes) % row_bytes == i % row_bytes,
        (rows - 1 - (rows - 1 - i / row_bytes)) * row_bytes + i % row_bytes == i,
{
    assert(row_bytes > 0) by (nonlinear_arith)
        requires
            0 <= i < row_bytes * rows,
            0 <= row_bytes,
    ;
    let r = i / row_bytes;
    let c = i % row_bytes;
    lemma_fundamental_div_mod(i, row_bytes);
    assert(0 <= c < row_bytes);
    assert(0 <= r < rows) by (nonlinear_arith)
        requires
            i == row_bytes * r + c,
            0 <= c < row_bytes,
            0 <= i < row_bytes * rows,
            row_bytes > 0,
    ;
    let m = rows - 1 - r;
    lemma_fundamental_div_mod_converse(m * row_bytes + c, row_bytes, m, c);
    assert(0 <= m * row_bytes + c < row_bytes * rows) by (nonlinear_arith)
        requires
            0 <= m < rows,
            0 <= c < row_bytes,
    ;
    assert((rows - 1 - m) * row_bytes + c == i) by (nonlinear_arith)
        requires
            rows - 1 - m == r,
            i == row_bytes * r + c,
    ;
}

/// Flips a picture of 8-bit RGB pixels upside down with the `image` crate:
/// `image::RgbImage::from_raw`, then `image::imageops::flip_vertical`, then
/// `ImageBuffer::into_raw`.
///
/// Trusted: `from_raw` refuses the buffer exactly when it holds fewer than
/// `3 * width * height` bytes, and the flipped picture has exactly that many
/// bytes, pixel `(x, y)` of it being pixel `(x, height - 1 - y)` of the input.
#[verifier::external_body]
pub(crate) fn flip_rgb8(width: u32, height: u32, data: Vec<u8>) -> (flipped: Option<Vec<u8>>)
    ensures
        flipped is Some <==> data@.len() >= 3 * width * height,
        flipped matches Some(out) ==> out@ == flip_rows(data@, 3 * width, height as int),
{
    let picture = image::RgbImage::from_raw(width, height, data)?;
    Some(image::imageops::flip_vertical(&picture).into_raw())
}

} // verus!
