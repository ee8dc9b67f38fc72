//! Textures: the negotiation between a picture's logical description and the
//! driver's formats, the upload, and the binding to texture units.

use crate::codes;
use crate::command::GlCommand;
use crate::context::{lemma_run_push, GpuContext, GpuState};
use crate::pixels::{flip_rgb8, flip_rows, ColorKind, DecodedImage, GlyphBitmap};
use vstd::prelude::*;

verus! {

/// What a texture is used for in a material.
#[derive(Clone, Copy, Debug, PartialEq, Eq, Structural)]
pub enum ImageKind {
    Diffuse,
    Specular,
    Normal,
}

/// The logical channel layout of a picture's pixels.
#[derive(Clone, Copy, Debug, PartialEq, Eq, Structural)]
pub enum ImageFormat {
    /// Red, green, blue.
    RGB,
    /// Red, green, blue, alpha.
    RGBA,
    /// Red, green.
    RG,
    /// Red.
    R,
    /// One channel of coverage, as glyph bitmaps have.
    Unicolor,
}

/// The extent of a texture, in pixels.
#[derive(Clone, Copy, Debug, PartialEq, Eq, Structural)]
pub enum TextureSize {
    TwoD { width: u32, height: u32 },
}

/// What sampling does outside the unit square.
#[derive(Clone, Copy, Debug, PartialEq, Eq, Structural)]
pub enum Wrapping {
    Repeat,
    MirroredRepeat,
    ClampToEdge,
    ClampToBorder,
}

/// How sampling combines texels.
#[derive(Clone, Copy, Debug, PartialEq, Eq, Structural)]
pub enum Filtering {
    Nearest,
    Linear,
    NearestMipmapNearest,
    NearestMipmapLinear,
    LinearMipmapNearest,
    LinearMipmapLinear,
}

/// Why a texture could not be created.
#[derive(Clone, Copy, Debug, PartialEq, Eq, Structural)]
pub enum TextureError {
    /// A dimension does not fit the driver's signed 32-bit size parameters.
    DimensionOverflow,
    /// The format has a channel count other than 1, 3 or 4.
    UnsupportedFormat,
    /// The decoded picture is not 8-bit RGB without alpha.
    UnsupportedImageEncoding,
}

/// A texture that lives on the GPU, with the description it was created from.
///
/// The value stands for the driver-side image: it is neither copied nor
/// cloned, and `destroy` consumes it.
#[derive(Debug, PartialEq, Eq, Structural)]
pub struct Texture {
    pub id: u32,
    pub kind: ImageKind,
    pub format: ImageFormat,
    pub size: TextureSize,
    pub s_wrapping: Wrapping,
    pub t_wrapping: Wrapping,
    pub min_filtering: Filtering,
    pub mag_filtering: Filtering,
    pub mipmapping: bool,
}

/// The driver's code for a wrapping mode.
pub open spec fn wrapping_code(wrapping: Wrapping) -> u32 {
    match wrapping {
        Wrapping::Repeat => codes::REPEAT,
        Wrapping::MirroredRepeat => codes::MIRRORED_REPEAT,
        Wrapping::ClampToEdge => codes::CLAMP_TO_EDGE,
        Wrapping::ClampToBorder => codes::CLAMP_TO_BORDER,
    }
}

/// The driver's code for a filtering mode.
pub open spec fn filtering_code(filtering: Filtering) -> u32 {
    match filtering {
        Filtering::Nearest => codes::NEAREST,
        Filtering::Linear => codes::LINEAR,
        Filtering::NearestMipmapNearest => codes::NEAREST_MIPMAP_NEAREST,
        Filtering::NearestMipmapLinear => codes::NEAREST_MIPMAP_LINEAR,
        Filtering::LinearMipmapNearest => codes::LINEAR_MIPMAP_NEAREST,
        Filtering::LinearMipmapLinear => codes::LINEAR_MIPMAP_LINEAR,
    }
}

/// The number of channels of a format.
pub open spec fn channel_count(format: ImageFormat) -> int {
    match format {
        ImageFormat::RGB => 3,
        ImageFormat::RGBA => 4,
        ImageFormat::RG => 2,
        ImageFormat::R => 1,
        ImageFormat::Unicolor => 1,
    }
}

/// The formats that the driver is given: those of one, three or four channels.
pub open spec fn format_supported(format: ImageFormat) -> bool {
    channel_count(format) == 1 || channel_count(format) == 3 || channel_count(format) == 4
}

/// The driver's code for a supported format; zero, which is no format code,
/// for the others.
pub open spec fn format_code(format: ImageFormat) -> u32 {
    match format {
        ImageFormat::RGB => codes::RGB,
        ImageFormat::RGBA => codes::RGBA,
        ImageFormat::RG => 0,
        ImageFormat::R => codes::RED,
        ImageFormat::Unicolor => codes::RED,
    }
}

/// The row alignment that the driver must assume when it unpacks tightly
/// packed rows of a format: four bytes for four channels, one byte otherwise.
pub open spec fn row_alignment(format: ImageFormat) -> i32 {
    if channel_count(format) == 4 {
        4
    } else {
        1
    }
}

/// Both dimensions fit a signed 32-bit size parameter.
pub open spec fn size_fits(size: TextureSize) -> bool {
    match size {
        TextureSize::TwoD { width, height } => width <= i32::MAX && height <= i32::MAX,
    }
}

/// The number of pixel bytes that the driver reads for a texture.
pub open spec fn required_bytes(size: TextureSize, format: ImageFormat) -> int {
    match size {
        TextureSize::TwoD { width, height } => width * height * channel_count(format),
    }
}

/// The reason for which a texture of this size and format is refused, if any.
/// A dimension that does not fit is reported before an unsupported format.
pub open spec fn creation_error(size: TextureSize, format: ImageFormat) -> Option<TextureError> {
    if !size_fits(size) {
        Some(TextureError::DimensionOverflow)
    } else if !format_supported(format) {
        Some(TextureError::UnsupportedFormat)
    } else {
        None
    }
}

/// A texture with a dimension beyond the signed 32-bit range is refused with
/// `DimensionOverflow`, whatever its format.
pub proof fn lemma_oversized_texture_is_refused(width: u32, height: u32, format: ImageFormat)
    requires
        width > i32::MAX || height > i32::MAX,
    ensures
        creation_error(TextureSize::TwoD { width, height }, format) == Some(
            TextureError::DimensionOverflow,
        ),
{
}

/// A texture whose dimensions fit is refused exactly when its format has a
/// channel count other than 1, 3 or 4, and then with `UnsupportedFormat`.
pub proof fn lemma_channel_count_decides(size: TextureSize, format: ImageFormat)
    requires
        size_fits(size),
    ensures
        creation_error(size, format) == if channel_count(format) == 1 || channel_count(format) == 3
            || channel_count(format) == 4 {
            None
        } else {
            Some(TextureError::UnsupportedFormat)
        },
        format_supported(format) <==> format != ImageFormat::RG,
        format_supported(format) <==> format_code(format) != 0,
{
}

/// The requests that create the driver-side image of `texture`, in order: the
/// row alignment, the binding, the upload, the four sampler parameters, and
/// the mipmap chain where it is asked for.
pub open spec fn upload_commands(texture: Texture) -> Seq<GlCommand> {
    let TextureSize::TwoD { width, height } = texture.size;
    let code = format_code(texture.format);
    let first = seq![
        GlCommand::PixelStore {
            parameter: codes::UNPACK_ALIGNMENT,
            value: row_alignment(texture.format),
        },
        GlCommand::BindTexture { target: codes::TEXTURE_2D, texture: texture.id },
        GlCommand::TexImage2D {
            target: codes::TEXTURE_2D,
            level: 0,
            internal_format: code as i32,
            width: width as i32,
            height: height as i32,
            border: 0,
            format: code,
            pixel_type: codes::UNSIGNED_BYTE,
        },
        GlCommand::TexParameter {
            target: codes::TEXTURE_2D,
            parameter: codes::TEXTURE_WRAP_S,
            value: wrapping_code(texture.s_wrapping) as i32,
        },
        GlCommand::TexParameter {
            target: codes::TEXTURE_2D,
            parameter: codes::TEXTURE_WRAP_T,
            value: wrapping_code(texture.t_wrapping) as i32,
        },
        GlCommand::TexParameter {
            target: codes::TEXTURE_2D,
            parameter: codes::TEXTURE_MIN_FILTER,
            value: filtering_code(texture.min_filtering) as i32,
        },
        GlCommand::TexParameter {
            target: codes::TEXTURE_2D,
            parameter: codes::TEXTURE_MAG_FILTER,
            value: filtering_code(texture.mag_filtering) as i32,
        },
    ];
    if texture.mipmapping {
        first.push(GlCommand::GenerateMipmap { target: codes::TEXTURE_2D })
    } else {
        first
    }
}

/// The driver's code for a wrapping mode.
pub fn gl_wrapping_from(wrapping: &Wrapping) -> (code: u32)
    ensures
        code == wrapping_code(*wrapping),
{
    match wrapping {
        Wrapping::Repeat => codes::gl_repeat(),
        Wrapping::MirroredRepeat => codes::gl_mirrored_repeat(),
        Wrapping::ClampToEdge => codes::gl_clamp_to_edge(),
        Wrapping::ClampToBorder => codes::gl_clamp_to_border(),
    }
}

/// The driver's code for a filtering mode.
pub fn gl_filtering_from(filtering: &Filtering) -> (code: u32)
    ensures
        code == filtering_code(*filtering),
{
    match filtering {
        Filtering::Nearest => codes::gl_nearest(),
        Filtering::Linear => codes::gl_linear(),
        Filtering::NearestMipmapNearest => codes::gl_nearest_mipmap_nearest(),
        Filtering::NearestMipmapLinear => codes::gl_nearest_mipmap_linear(),
        Filtering::LinearMipmapNearest => codes::gl_linear_mipmap_nearest(),
        Filtering::LinearMipmapLinear => codes::gl_linear_mipmap_linear(),
    }
}

/// The driver's code for a format, or `UnsupportedFormat` for a format whose
/// channel count is not 1, 3 or 4.
pub fn gl_format_from(format: &ImageFormat) -> (code: Result<u32, TextureError>)
    ensures
        code is Ok <==> format_supported(*format),
        code matches Ok(c) ==> c == format_code(*format),
        code matches Err(e) ==> e == TextureError::UnsupportedFormat,
{
    match format {
        ImageFormat::RGB => Ok(codes::gl_rgb()),
        ImageFormat::RGBA => Ok(codes::gl_rgba()),
        ImageFormat::RG => Err(TextureError::UnsupportedFormat),
        ImageFormat::R => Ok(codes::gl_red()),
        ImageFormat::Unicolor => Ok(codes::gl_red()),
    }
}

impl ImageFormat {
    /// The number of channels of this format.
    pub fn channels(&self) -> (count: u8)
        ensures
            count == channel_count(*self),
    {
        match self {
            ImageFormat::RGB => 3,
            ImageFormat::RGBA => 4,
            ImageFormat::RG => 2,
            ImageFormat::R => 1,
            ImageFormat::Unicolor => 1,
        }
    }

    /// The row alignment for unpacking tightly packed rows of this format.
    pub fn unpack_alignment(&self) -> (alignment: i32)
        ensures
            alignment == row_alignment(*self),
    {
        if self.channels() == 4 {
            4
        } else {
            1
        }
    }
}

/// What the host carries out to put a texture on the GPU: the requests, in
/// order, and the pixel bytes that the upload request among them reads. The
/// host must not start with fewer bytes than `required_bytes` counts.
#[derive(Debug)]
pub struct TextureUpload {
    pub texture: Texture,
    pub commands: Vec<GlCommand>,
    pub pixels: Vec<u8>,
}

/// A validated request for a texture: everything but the driver's handle.
#[derive(Debug)]
pub struct TextureRequest {
    pixels: Vec<u8>,
    pending: Texture,
}

impl TextureRequest {
    #[verifier::type_invariant]
    spec fn accepted(self) -> bool {
        creation_error(self.pending.size, self.pending.format) is None
    }

    /// The pixel bytes to upload.
    pub closed spec fn pixel_bytes(&self) -> Seq<u8> {
        self.pixels@
    }

    /// The texture that the upload will create, with zero for the handle
    /// that the driver has yet to allot.
    pub closed spec fn pending(&self) -> Texture {
        self.pending
    }

    /// The pixel bytes of the request.
    pub fn pixels(&self) -> (bytes: &Vec<u8>)
        ensures
            bytes@ == self.pixel_bytes(),
    {
        &self.pixels
    }

    /// The description of the texture to be: its handle is zero.
    pub fn description(&self) -> (texture: &Texture)
        ensures
            *texture == self.pending(),
            creation_error(texture.size, texture.format) is None,
    {
        proof {
            use_type_invariant(self);
        }
        &self.pending
    }

    /// The number of bytes that the driver reads from the pixel buffer during
    /// the upload. The host must not start the upload with a shorter buffer.
    pub fn byte_len(&self) -> (count: u64)
        ensures
            count == required_bytes(self.pending().size, self.pending().format),
    {
        proof {
            use_type_invariant(self);
        }
        let TextureSize::TwoD { width, height } = self.pending.size;
        let channels = self.pending.format.channels();
        assert(width * height <= 0x7fff_ffff * 0x7fff_ffff) by (nonlinear_arith)
            requires
                width <= 0x7fff_ffff,
                height <= 0x7fff_ffff,
        ;
        let texels: u64 = width as u64 * height as u64;
        assert(texels * channels <= 0x7fff_ffff * 0x7fff_ffff * 4) by (nonlinear_arith)
            requires
                texels <= 0x7fff_ffff * 0x7fff_ffff,
                channels <= 4,
        ;
        texels * channels as u64
    }

    /// Turns the request into a texture, given the handle `id` that the driver
    /// allotted, and returns it with the requests that fill it and the pixel
    /// bytes that go with the upload request. The upload binds the new texture
    /// at the selected unit, and the context records that.
    pub fn upload(self, ctx: &mut GpuContext, id: u32) -> (out: TextureUpload)
        ensures
            out.texture == (Texture { id, ..self.pending() }),
            out.commands@ == upload_commands(out.texture),
            out.pixels@ == self.pixel_bytes(),
            final(ctx)@ == old(ctx)@.run(out.commands@),
            final(ctx)@ == (GpuState {
                textures: old(ctx)@.textures.insert(old(ctx)@.unit, id),
                ..old(ctx)@
            }),
    {
        proof {
            use_type_invariant(&self);
        }
        let texture = Texture { id, ..self.pending };
        let TextureSize::TwoD { width, height } = texture.size;
        let target = codes::gl_texture_2d();
        let code = match gl_format_from(&texture.format) {
            Ok(code) => code,
            Err(_) => 0,
        };
        let mut commands: Vec<GlCommand> = Vec::new();
        commands.push(
            GlCommand::PixelStore {
                parameter: codes::gl_unpack_alignment(),
                value: texture.format.unpack_alignment(),
            },
        );
        commands.push(GlCommand::BindTexture { target, texture: id });
        commands.push(
            GlCommand::TexImage2D {
                target,
                level: 0,
                internal_format: code as i32,
                width: width as i32,
                height: height as i32,
                border: 0,
                format: code,
                pixel_type: codes::gl_unsigned_byte(),
            },
        );
        commands.push(
            GlCommand::TexParameter {
                target,
                parameter: codes::gl_texture_wrap_s(),
                value: gl_wrapping_from(&texture.s_wrapping) as i32,
            },
        );
        commands.push(
            GlCommand::TexParameter {
                target,
                parameter: codes::gl_texture_wrap_t(),
                value: gl_wrapping_from(&texture.t_wrapping) as i32,
            },
        );
        commands.push(
            GlCommand::TexParameter {
                target,
                parameter: codes::gl_texture_min_filter(),
                value: gl_filtering_from(&texture.min_filtering) as i32,
            },
        );
        commands.push(
            GlCommand::TexParameter {
                target,
                parameter: codes::gl_texture_mag_filter(),
                value: gl_filtering_from(&texture.mag_filtering) as i32,
            },
        );
        if texture.mipmapping {
            commands.push(GlCommand::GenerateMipmap { target });
        }
        assert(commands@ =~= upload_commands(texture));
        proof {
            lemma_upload_commands_run(ctx@, texture);
        }
        ctx.apply_all(&commands);
        TextureUpload { texture, commands, pixels: self.pixels }
    }
}

/// Validates a texture request and negotiates its driver format.
///
/// The request is refused with `DimensionOverflow` where a dimension exceeds
/// the signed 32-bit range, else with `UnsupportedFormat` where the format has
/// a channel count other than 1, 3 or 4. An accepted request keeps the pixel
/// bytes and the description unchanged.
pub fn create_texture(
    data: Vec<u8>,
    kind: ImageKind,
    size: TextureSize,
    format: ImageFormat,
    s_wrapping: Wrapping,
    t_wrapping: Wrapping,
    min_filtering: Filtering,
    mag_filtering: Filtering,
    mipmapping: bool,
) -> (result: Result<TextureRequest, TextureError>)
    ensures
        match result {
            Ok(upload) => creation_error(size, format) is None && upload.pixel_bytes() == data@
                && upload.pending() == (Texture {
                id: 0,
                kind,
                format,
                size,
                s_wrapping,
                t_wrapping,
                min_filtering,
                mag_filtering,
                mipmapping,
            }),
            Err(error) => creation_error(size, format) == Some(error),
        },
{
    let TextureSize::TwoD { width, height } = size;
    if width > 0x7fff_ffff || height > 0x7fff_ffff {
        return Err(TextureError::DimensionOverflow);
    }
    match gl_format_from(&format) {
        Ok(_) => {},
        Err(error) => {
            return Err(error);
        },
    }
    let pending = Texture {
        id: 0,
        kind,
        format,
        size,
        s_wrapping,
        t_wrapping,
        min_filtering,
        mag_filtering,
        mipmapping,
    };
    Ok(TextureRequest { pixels: data, pending })
}

/// The reason for which a decoded picture is refused, if any. A dimension
/// beyond the signed 32-bit range is reported first; then anything but 8-bit
/// RGB pixels, three bytes for each pixel of the picture.
pub open spec fn file_error(image: DecodedImage) -> Option<TextureError> {
    if image.width > i32::MAX || image.height > i32::MAX {
        Some(TextureError::DimensionOverflow)
    } else if image.color != ColorKind::Rgb8 || image.data@.len() != 3 * image.width
        * image.height {
        Some(TextureError::UnsupportedImageEncoding)
    } else {
        None
    }
}

/// The requests that bind texture `id` at unit `unit`: select the unit, then
/// bind to its two-dimensional target.
pub open spec fn bind_commands(id: u32, unit: u32) -> Seq<GlCommand> {
    seq![
        GlCommand::ActiveTexture { unit: (codes::TEXTURE0 + unit) as u32 },
        GlCommand::BindTexture { target: codes::TEXTURE_2D, texture: id },
    ]
}

/// Binding a texture at a unit selects the unit and replaces its binding;
/// every other unit keeps its binding, and the current program stays.
pub proof fn lemma_bind_commands_run(state: GpuState, id: u32, unit: u32)
    requires
        codes::TEXTURE0 + unit <= u32::MAX,
    ensures
        state.run(bind_commands(id, unit)) == (GpuState {
            unit,
            textures: state.textures.insert(unit, id),
            ..state
        }),
{
    let select = GlCommand::ActiveTexture { unit: (codes::TEXTURE0 + unit) as u32 };
    let bind = GlCommand::BindTexture { target: codes::TEXTURE_2D, texture: id };
    let none = Seq::<GlCommand>::empty();
    assert(bind_commands(id, unit) =~= none.push(select).push(bind));
    lemma_run_push(state, none, select);
    lemma_run_push(state, none.push(select), bind);
}

/// The upload of a texture replaces the binding of the selected unit by the
/// new texture and touches nothing else of the driver state.
pub proof fn lemma_upload_commands_run(state: GpuState, texture: Texture)
    ensures
        state.run(upload_commands(texture)) == (GpuState {
            textures: state.textures.insert(state.unit, texture.id),
            ..state
        }),
{
    let commands = upload_commands(texture);
    let bound = GpuState { textures: state.textures.insert(state.unit, texture.id), ..state };
    assert(state.run(commands.take(0)) == state);
    lemma_run_push(state, commands.take(0), commands[0]);
    assert(commands.take(0).push(commands[0]) =~= commands.take(1));
    lemma_run_push(state, commands.take(1), commands[1]);
    assert(commands.take(1).push(commands[1]) =~= commands.take(2));
    assert(state.run(commands.take(2)) == bound);
    lemma_run_push(state, commands.take(2), commands[2]);
    assert(commands.take(2).push(commands[2]) =~= commands.take(3));
    lemma_run_push(state, commands.take(3), commands[3]);
    assert(commands.take(3).push(commands[3]) =~= commands.take(4));
    lemma_run_push(state, commands.take(4), commands[4]);
    assert(commands.take(4).push(commands[4]) =~= commands.take(5));
    lemma_run_push(state, commands.take(5), commands[5]);
    assert(commands.take(5).push(commands[5]) =~= commands.take(6));
    lemma_run_push(state, commands.take(6), commands[6]);
    assert(commands.take(6).push(commands[6]) =~= commands.take(7));
    assert(state.run(commands.take(7)) == bound);
    if texture.mipmapping {
        lemma_run_push(state, commands.take(7), commands[7]);
        assert(commands.take(7).push(commands[7]) =~= commands.take(8));
        assert(commands.take(8) =~= commands);
    } else {
        assert(commands.take(7) =~= commands);
    }
}

impl Texture {
    /// Prepares a texture from a decoded picture file.
    ///
    /// The picture must be 8-bit RGB; its rows are reversed, because the
    /// driver's texture coordinates start at the bottom row. The request is
    /// refused as `file_error` says.
    pub fn from_file(
        image: DecodedImage,
        kind: ImageKind,
        s_wrapping: Wrapping,
        t_wrapping: Wrapping,
        min_filtering: Filtering,
        mag_filtering: Filtering,
        mipmapping: bool,
    ) -> (result: Result<TextureRequest, TextureError>)
        ensures
            match result {
                Ok(upload) => file_error(image) is None && upload.pixel_bytes() == flip_rows(
                    image.data@,
                    3 * image.width,
                    image.height as int,
                ) && upload.pending() == (Texture {
                    id: 0,
                    kind,
                    format: ImageFormat::RGB,
                    size: TextureSize::TwoD { width: image.width, height: image.height },
                    s_wrapping,
                    t_wrapping,
                    min_filtering,
                    mag_filtering,
                    mipmapping,
                }),
                Err(error) => file_error(image) == Some(error),
            },
    {
        let DecodedImage { width, height, color, data } = image;
        if width > 0x7fff_ffff || height > 0x7fff_ffff {
            return Err(TextureError::DimensionOverflow);
        }
        let format = match color {
            ColorKind::Rgb8 => ImageFormat::RGB,
            _ => {
                return Err(TextureError::UnsupportedImageEncoding);
            },
        };
        assert(width * height <= 0x7fff_ffff * 0x7fff_ffff) by (nonlinear_arith)
            requires
                width <= 0x7fff_ffff,
                height <= 0x7fff_ffff,
        ;
        let expected: u64 = 3 * (width as u64 * height as u64);
        assert(expected == 3 * width * height) by (nonlinear_arith)
            requires
                expected == 3 * (width * height),
        ;
        if data.len() as u64 != expected {
            return Err(TextureError::UnsupportedImageEncoding);
        }
        match flip_rgb8(width, height, data) {
            Some(flipped) => create_texture(
                flipped,
                kind,
                TextureSize::TwoD { width, height },
                format,
                s_wrapping,
                t_wrapping,
                min_filtering,
                mag_filtering,
                mipmapping,
            ),
            None => Err(TextureError::UnsupportedImageEncoding),
        }
    }

    /// Prepares a single-channel texture from a rasterised glyph, with the
    /// fixed policy for text: repeat wrapping, linear filtering, no mipmaps.
    ///
    /// A negative width or row count stands for an unsigned count beyond the
    /// signed range and is refused with `DimensionOverflow`.
    pub fn from_bitmap(bitmap: GlyphBitmap) -> (result: Result<TextureRequest, TextureError>)
        ensures
            match result {
                Ok(upload) => bitmap.width >= 0 && bitmap.rows >= 0 && upload.pixel_bytes()
                    == bitmap.buffer@ && upload.pending() == (Texture {
                    id: 0,
                    kind: ImageKind::Diffuse,
                    format: ImageFormat::Unicolor,
                    size: TextureSize::TwoD {
                        width: bitmap.width as u32,
                        height: bitmap.rows as u32,
                    },
                    s_wrapping: Wrapping::Repeat,
                    t_wrapping: Wrapping::Repeat,
                    min_filtering: Filtering::Linear,
                    mag_filtering: Filtering::Linear,
                    mipmapping: false,
                }),
                Err(error) => error == TextureError::DimensionOverflow && (bitmap.width < 0
                    || bitmap.rows < 0),
            },
    {
        let GlyphBitmap { buffer, width, rows } = bitmap;
        if width < 0 || rows < 0 {
            return Err(TextureError::DimensionOverflow);
        }
        create_texture(
            buffer,
            ImageKind::Diffuse,
            TextureSize::TwoD { width: width as u32, height: rows as u32 },
            ImageFormat::Unicolor,
            Wrapping::Repeat,
            Wrapping::Repeat,
            Filtering::Linear,
            Filtering::Linear,
            false,
        )
    }

    /// Binds this texture at unit `texture_unit`: selects the unit and binds
    /// the texture to its two-dimensional target. Every other unit keeps its
    /// binding, and the current program stays.
    pub fn bind(&self, ctx: &mut GpuContext, texture_unit: u32) -> (commands: Vec<GlCommand>)
        requires
            codes::TEXTURE0 + texture_unit <= u32::MAX,
        ensures
            commands@ == bind_commands(self.id, texture_unit),
            final(ctx)@ == old(ctx)@.run(commands@),
            final(ctx)@ == (GpuState {
                unit: texture_unit,
                textures: old(ctx)@.textures.insert(texture_unit, self.id),
                ..old(ctx)@
            }),
    {
        let mut commands: Vec<GlCommand> = Vec::new();
        commands.push(GlCommand::ActiveTexture { unit: codes::gl_texture0() + texture_unit });
        commands.push(GlCommand::BindTexture { target: codes::gl_texture_2d(), texture: self.id });
        assert(commands@ =~= bind_commands(self.id, texture_unit));
        proof {
            lemma_bind_commands_run(ctx@, self.id, texture_unit);
        }
        ctx.apply_all(&commands);
        commands
    }

    /// The request that sets the integer sampler parameter `param` of this
    /// texture to `value`. The texture must be bound at the selected unit.
    pub fn set_param_i(&self, ctx: &GpuContext, param: u32, value: i32) -> (command: GlCommand)
        requires
            ctx.texture_at(ctx.active_unit()) == self.id,
        ensures
            command == (GlCommand::TexParameter {
                target: codes::TEXTURE_2D,
                parameter: param,
                value,
            }),
    {
        GlCommand::TexParameter { target: codes::gl_texture_2d(), parameter: param, value }
    }

    /// Changes the wrapping modes of this texture, which must be bound at the
    /// selected unit, and returns the two requests that apply them.
    pub fn set_wrap(
        &mut self,
        ctx: &GpuContext,
        s: Wrapping,
        t: Wrapping,
    ) -> (commands: Vec<GlCommand>)
        requires
            ctx.texture_at(ctx.active_unit()) == old(self).id,
        ensures
            *final(self) == (Texture { s_wrapping: s, t_wrapping: t, ..*old(self) }),
            commands@ == seq![
                GlCommand::TexParameter {
                    target: codes::TEXTURE_2D,
                    parameter: codes::TEXTURE_WRAP_S,
                    value: wrapping_code(s) as i32,
                },
                GlCommand::TexParameter {
                    target: codes::TEXTURE_2D,
                    parameter: codes::TEXTURE_WRAP_T,
                    value: wrapping_code(t) as i32,
                },
            ],
    {
        let mut commands: Vec<GlCommand> = Vec::new();
        let s_code = gl_wrapping_from(&s) as i32;
        let t_code = gl_wrapping_from(&t) as i32;
        commands.push(self.set_param_i(ctx, codes::gl_texture_wrap_s(), s_code));
        commands.push(self.set_param_i(ctx, codes::gl_texture_wrap_t(), t_code));
        self.s_wrapping = s;
        self.t_wrapping = t;
        commands
    }

    /// Changes the filtering modes of this texture, which must be bound at the
    /// selected unit, and returns the two requests that apply them.
    pub fn set_filter(
        &mut self,
        ctx: &GpuContext,
        min: Filtering,
        mag: Filtering,
    ) -> (commands: Vec<GlCommand>)
        requires
            ctx.texture_at(ctx.active_unit()) == old(self).id,
        ensures
            *final(self) == (Texture { min_filtering: min, mag_filtering: mag, ..*old(self) }),
            commands@ == seq![
                GlCommand::TexParameter {
                    target: codes::TEXTURE_2D,
                    parameter: codes::TEXTURE_MIN_FILTER,
                    value: filtering_code(min) as i32,
                },
                GlCommand::TexParameter {
                    target: codes::TEXTURE_2D,
                    parameter: codes::TEXTURE_MAG_FILTER,
                    value: filtering_code(mag) as i32,
                },
            ],
    {
        let mut commands: Vec<GlCommand> = Vec::new();
        let min_code = gl_filtering_from(&min) as i32;
        let mag_code = gl_filtering_from(&mag) as i32;
        commands.push(self.set_param_i(ctx, codes::gl_texture_min_filter(), min_code));
        commands.push(self.set_param_i(ctx, codes::gl_texture_mag_filter(), mag_code));
        self.min_filtering = min;
        self.mag_filtering = mag;
        commands
    }

    /// Releases this texture, consuming the value. Every unit that had it
    /// bound has nothing bound afterwards.
    pub fn destroy(self, ctx: &mut GpuContext) -> (command: GlCommand)
        ensures
            command == (GlCommand::DeleteTexture { texture: self.id }),
            final(ctx)@ == old(ctx)@.step(command),
            final(ctx).current_program() == old(ctx).current_program(),
            final(ctx).active_unit() == old(ctx).active_unit(),
            forall|unit: u32|
                final(ctx).texture_at(unit) == if old(ctx).texture_at(unit) == self.id {
                    0
                } else {
                    old(ctx).texture_at(unit)
                },
    {
        let command = GlCommand::DeleteTexture { texture: self.id };
        ctx.apply(command);
        command
    }
}

} // verus!
