//! The numeric codes of the OpenGL driver interface that this crate speaks.
//!
//! Each constant below states the value that the OpenGL registry assigns to a
//! name. The executable code does not read these constants: it takes every
//! code from the `gl` crate, through the functions at the end of this module.
//! Each of those functions is trusted to return the registry's value, which is
//! the constant of the same name; nothing else in the crate is assumed about
//! the driver bindings.

use vstd::prelude::*;

verus! {

/// `GL_FALSE`, the driver's boolean "no", as it appears in status queries.
pub const FALSE: u8 = 0;

/// `GL_FRONT_AND_BACK`, the face selector used for polygon modes.
pub const FRONT_AND_BACK: u32 = 0x0408;

/// `GL_UNPACK_ALIGNMENT`, the pixel-store parameter for row alignment on upload.
pub const UNPACK_ALIGNMENT: u32 = 0x0CF5;

/// `GL_TEXTURE_2D`, the two-dimensional texture target.
pub const TEXTURE_2D: u32 = 0x0DE1;

/// `GL_UNSIGNED_BYTE`, the component type of uploaded pixels.
pub const UNSIGNED_BYTE: u32 = 0x1401;

/// `GL_RED`, the single-channel pixel format.
pub const RED: u32 = 0x1903;

/// `GL_RGB`, the three-channel pixel format.
pub const RGB: u32 = 0x1907;

/// `GL_RGBA`, the four-channel pixel format.
pub const RGBA: u32 = 0x1908;

/// `GL_POINT`, the polygon mode that draws vertices only.
pub const POINT: u32 = 0x1B00;

/// `GL_LINE`, the polygon mode that draws edges only.
pub const LINE: u32 = 0x1B01;

/// `GL_FILL`, the polygon mode that draws filled faces.
pub const FILL: u32 = 0x1B02;

/// `GL_NEAREST`.
pub const NEAREST: u32 = 0x2600;

/// `GL_LINEAR`.
pub const LINEAR: u32 = 0x2601;

/// `GL_NEAREST_MIPMAP_NEAREST`.
pub const NEAREST_MIPMAP_NEAREST: u32 = 0x2700;

/// `GL_LINEAR_MIPMAP_NEAREST`.
pub const LINEAR_MIPMAP_NEAREST: u32 = 0x2701;

/// `GL_NEAREST_MIPMAP_LINEAR`.
pub const NEAREST_MIPMAP_LINEAR: u32 = 0x2702;

/// `GL_LINEAR_MIPMAP_LINEAR`.
pub const LINEAR_MIPMAP_LINEAR: u32 = 0x2703;

/// `GL_TEXTURE_MAG_FILTER`.
pub const TEXTURE_MAG_FILTER: u32 = 0x2800;

/// `GL_TEXTURE_MIN_FILTER`.
pub const TEXTURE_MIN_FILTER: u32 = 0x2801;

/// `GL_TEXTURE_WRAP_S`.
pub const TEXTURE_WRAP_S: u32 = 0x2802;

/// `GL_TEXTURE_WRAP_T`.
pub const TEXTURE_WRAP_T: u32 = 0x2803;

/// `GL_REPEAT`.
pub const REPEAT: u32 = 0x2901;

/// `GL_CLAMP_TO_BORDER`.
pub const CLAMP_TO_BORDER: u32 = 0x812D;

/// `GL_CLAMP_TO_EDGE`.
pub const CLAMP_TO_EDGE: u32 = 0x812F;

/// `GL_MIRRORED_REPEAT`.
pub const MIRRORED_REPEAT: u32 = 0x8370;

/// `GL_TEXTURE0`, the code of texture unit zero; unit `n` has code `TEXTURE0 + n`.
pub const TEXTURE0: u32 = 0x84C0;

/// `GL_FRAGMENT_SHADER`.
pub const FRAGMENT_SHADER: u32 = 0x8B30;

/// `GL_VERTEX_SHADER`.
pub const VERTEX_SHADER: u32 = 0x8B31;

/// Reads `gl::FALSE`; trusted to be the registry's `GL_FALSE`.
#[verifier::external_body]
pub(crate) fn gl_false() -> (code: u8)
    ensures
        code == FALSE,
{
    gl::FALSE
}

/// Reads `gl::FRONT_AND_BACK`; trusted to be the registry's `GL_FRONT_AND_BACK`.
#[verifier::external_body]
pub(crate) fn gl_front_and_back() -> (code: u32)
    ensures
        code == FRONT_AND_BACK,
{
    gl::FRONT_AND_BACK
}

/// Reads `gl::UNPACK_ALIGNMENT`; trusted to be the registry's `GL_UNPACK_ALIGNMENT`.
#[verifier::external_body]
pub(crate) fn gl_unpack_alignment() -> (code: u32)
    ensures
        code == UNPACK_ALIGNMENT,
{
    gl::UNPACK_ALIGNMENT
}

/// Reads `gl::TEXTURE_2D`; trusted to be the registry's `GL_TEXTURE_2D`.
#[verifier::external_body]
pub(crate) fn gl_texture_2d() -> (code: u32)
    ensures
        code == TEXTURE_2D,
{
    gl::TEXTURE_2D
}

/// Reads `gl::UNSIGNED_BYTE`; trusted to be the registry's `GL_UNSIGNED_BYTE`.
#[verifier::external_body]
pub(crate) fn gl_unsigned_byte() -> (code: u32)
    ensures
        code == UNSIGNED_BYTE,
{
    gl::UNSIGNED_BYTE
}

/// Reads `gl::RED`; trusted to be the registry's `GL_RED`.
#[verifier::external_body]
pub(crate) fn gl_red() -> (code: u32)
    ensures
        code == RED,
{
    gl::RED
}

/// Reads `gl::RGB`; trusted to be the registry's `GL_RGB`.
#[verifier::external_body]
pub(crate) fn gl_rgb() -> (code: u32)
    ensures
        code == RGB,
{
    gl::RGB
}

/// Reads `gl::RGBA`; trusted to be the registry's `GL_RGBA`.
#[verifier::external_body]
pub(crate) fn gl_rgba() -> (code: u32)
    ensures
        code == RGBA,
{
    gl::RGBA
}

/// Reads `gl::POINT`; trusted to be the registry's `GL_POINT`.
#[verifier::external_body]
pub(crate) fn gl_point() -> (code: u32)
    ensures
        code == POINT,
{
    gl::POINT
}

/// Reads `gl::LINE`; trusted to be the registry's `GL_LINE`.
#[verifier::external_body]
pub(crate) fn gl_line() -> (code: u32)
    ensures
        code == LINE,
{
    gl::LINE
}

/// Reads `gl::FILL`; trusted to be the registry's `GL_FILL`.
#[verifier::external_body]
pub(crate) fn gl_fill() -> (code: u32)
    ensures
        code == FILL,
{
    gl::FILL
}

/// Reads `gl::NEAREST`; trusted to be the registry's `GL_NEAREST`.
#[verifier::external_body]
pub(crate) fn gl_nearest() -> (code: u32)
    ensures
        code == NEAREST,
{
    gl::NEAREST
}

/// Reads `gl::LINEAR`; trusted to be the registry's `GL_LINEAR`.
#[verifier::external_body]
pub(crate) fn gl_linear() -> (code: u32)
    ensures
        code == LINEAR,
{
    gl::LINEAR
}

/// Reads `gl::NEAREST_MIPMAP_NEAREST`; trusted to be the registry's
/// `GL_NEAREST_MIPMAP_NEAREST`.
#[verifier::external_body]
pub(crate) fn gl_nearest_mipmap_nearest() -> (code: u32)
    ensures
        code == NEAREST_MIPMAP_NEAREST,
{
    gl::NEAREST_MIPMAP_NEAREST
}

/// Reads `gl::LINEAR_MIPMAP_NEAREST`; trusted to be the registry's
/// `GL_LINEAR_MIPMAP_NEAREST`.
#[verifier::external_body]
pub(crate) fn gl_linear_mipmap_nearest() -> (code: u32)
    ensures
        code == LINEAR_MIPMAP_NEAREST,
{
    gl::LINEAR_MIPMAP_NEAREST
}

/// Reads `gl::NEAREST_MIPMAP_LINEAR`; trusted to be the registry's
/// `GL_NEAREST_MIPMAP_LINEAR`.
#[verifier::external_body]
pub(crate) fn gl_nearest_mipmap_linear() -> (code: u32)
    ensures
        code == NEAREST_MIPMAP_LINEAR,
{
    gl::NEAREST_MIPMAP_LINEAR
}

/// Reads `gl::LINEAR_MIPMAP_LINEAR`; trusted to be the registry's
/// `GL_LINEAR_MIPMAP_LINEAR`.
#[verifier::external_body]
pub(crate) fn gl_linear_mipmap_linear() -> (code: u32)
    ensures
        code == LINEAR_MIPMAP_LINEAR,
{
    gl::LINEAR_MIPMAP_LINEAR
}

/// Reads `gl::TEXTURE_MAG_FILTER`; trusted to be the registry's
/// `GL_TEXTURE_MAG_FILTER`.
#[verifier::external_body]
pub(crate) fn gl_texture_mag_filter() -> (code: u32)
    ensures
        code == TEXTURE_MAG_FILTER,
{
    gl::TEXTURE_MAG_FILTER
}

/// Reads `gl::TEXTURE_MIN_FILTER`; trusted to be the registry's
/// `GL_TEXTURE_MIN_FILTER`.
#[verifier::external_body]
pub(crate) fn gl_texture_min_filter() -> (code: u32)
    ensures
        code == TEXTURE_MIN_FILTER,
{
    gl::TEXTURE_MIN_FILTER
}

/// Reads `gl::TEXTURE_WRAP_S`; trusted to be the registry's `GL_TEXTURE_WRAP_S`.
#[verifier::external_body]
pub(crate) fn gl_texture_wrap_s() -> (code: u32)
    ensures
        code == TEXTURE_WRAP_S,
{
    gl::TEXTURE_WRAP_S
}

/// Reads `gl::TEXTURE_WRAP_T`; trusted to be the registry's `GL_TEXTURE_WRAP_T`.
#[verifier::external_body]
pub(crate) fn gl_texture_wrap_t() -> (code: u32)
    ensures
        code == TEXTURE_WRAP_T,
{
    gl::TEXTURE_WRAP_T
}

/// Reads `gl::REPEAT`; trusted to be the registry's `GL_REPEAT`.
#[verifier::external_body]
pub(crate) fn gl_repeat() -> (code: u32)
    ensures
        code == REPEAT,
{
    gl::REPEAT
}

/// Reads `gl::CLAMP_TO_BORDER`; trusted to be the registry's `GL_CLAMP_TO_BORDER`.
#[verifier::external_body]
pub(crate) fn gl_clamp_to_border() -> (code: u32)
    ensures
        code == CLAMP_TO_BORDER,
{
    gl::CLAMP_TO_BORDER
}

/// Reads `gl::CLAMP_TO_EDGE`; trusted to be the registry's `GL_CLAMP_TO_EDGE`.
#[verifier::external_body]
pub(crate) fn gl_clamp_to_edge() -> (code: u32)
    ensures
        code == CLAMP_TO_EDGE,
{
    gl::CLAMP_TO_EDGE
}

/// Reads `gl::MIRRORED_REPEAT`; trusted to be the registry's `GL_MIRRORED_REPEAT`.
#[verifier::external_body]
pub(crate) fn gl_mirrored_repeat() -> (code: u32)
    ensures
        code == MIRRORED_REPEAT,
{
    gl::MIRRORED_REPEAT
}

/// Reads `gl::TEXTURE0`; trusted to be the registry's `GL_TEXTURE0`.
#[verifier::external_body]
pub(crate) fn gl_texture0() -> (code: u32)
    ensures
        code == TEXTURE0,
{
    gl::TEXTURE0
}

/// Reads `gl::FRAGMENT_SHADER`; trusted to be the registry's `GL_FRAGMENT_SHADER`.
#[verifier::external_body]
pub(crate) fn gl_fragment_shader() -> (code: u32)
    ensures
        code == FRAGMENT_SHADER,
{
    gl::FRAGMENT_SHADER
}

/// Reads `gl::VERTEX_SHADER`; trusted to be the registry's `GL_VERTEX_SHADER`.
#[verifier::external_body]
pub(crate) fn gl_vertex_shader() -> (code: u32)
    ensures
        code == VERTEX_SHADER,
{
    gl::VERTEX_SHADER
}

} // verus!
