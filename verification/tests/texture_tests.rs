use revenant::codes;
use revenant::command::GlCommand;
use revenant::context::GpuContext;
use revenant::pixels::{ColorKind, DecodedImage, GlyphBitmap};
use revenant::texture::{
    create_texture, gl_filtering_from, gl_format_from, gl_wrapping_from, Filtering, ImageFormat,
    ImageKind, Texture, TextureError, TextureRequest, TextureSize, Wrapping,
};

fn request(
    data: Vec<u8>,
    width: u32,
    height: u32,
    format: ImageFormat,
    mipmapping: bool,
) -> Result<TextureRequest, TextureError> {
    create_texture(
        data,
        ImageKind::Specular,
        TextureSize::TwoD { width, height },
        format,
        Wrapping::ClampToEdge,
        Wrapping::MirroredRepeat,
        Filtering::LinearMipmapLinear,
        Filtering::Nearest,
        mipmapping,
    )
}

fn sample_texture(id: u32) -> Texture {
    Texture {
        id,
        kind: ImageKind::Diffuse,
        format: ImageFormat::RGB,
        size: TextureSize::TwoD { width: 4, height: 4 },
        s_wrapping: Wrapping::Repeat,
        t_wrapping: Wrapping::Repeat,
        min_filtering: Filtering::Linear,
        mag_filtering: Filtering::Linear,
        mipmapping: false,
    }
}

#[test]
fn wrapping_codes_are_the_drivers() {
    assert_eq!(gl_wrapping_from(&Wrapping::Repeat), gl::REPEAT);
    assert_eq!(gl_wrapping_from(&Wrapping::MirroredRepeat), gl::MIRRORED_REPEAT);
    assert_eq!(gl_wrapping_from(&Wrapping::ClampToEdge), gl::CLAMP_TO_EDGE);
    assert_eq!(gl_wrapping_from(&Wrapping::ClampToBorder), gl::CLAMP_TO_BORDER);
}

#[test]
fn wrapping_codes_have_the_registry_values() {
    assert_eq!(gl_wrapping_from(&Wrapping::Repeat), 0x2901);
    assert_eq!(gl_wrapping_from(&Wrapping::MirroredRepeat), 0x8370);
    assert_eq!(gl_wrapping_from(&Wrapping::ClampToEdge), 0x812F);
    assert_eq!(gl_wrapping_from(&Wrapping::ClampToBorder), 0x812D);
}

#[test]
fn filtering_codes_are_the_drivers() {
    assert_eq!(gl_filtering_from(&Filtering::Nearest), gl::NEAREST);
    assert_eq!(gl_filtering_from(&Filtering::Linear), gl::LINEAR);
    assert_eq!(gl_filtering_from(&Filtering::NearestMipmapNearest), gl::NEAREST_MIPMAP_NEAREST);
    assert_eq!(gl_filtering_from(&Filtering::NearestMipmapLinear), gl::NEAREST_MIPMAP_LINEAR);
    assert_eq!(gl_filtering_from(&Filtering::LinearMipmapNearest), gl::LINEAR_MIPMAP_NEAREST);
    assert_eq!(gl_filtering_from(&Filtering::LinearMipmapLinear), gl::LINEAR_MIPMAP_LINEAR);
}

#[test]
fn filtering_codes_have_the_registry_values() {
    assert_eq!(gl_filtering_from(&Filtering::Nearest), 0x2600);
    assert_eq!(gl_filtering_from(&Filtering::Linear), 0x2601);
    assert_eq!(gl_filtering_from(&Filtering::NearestMipmapNearest), 0x2700);
    assert_eq!(gl_filtering_from(&Filtering::LinearMipmapNearest), 0x2701);
    assert_eq!(gl_filtering_from(&Filtering::NearestMipmapLinear), 0x2702);
    assert_eq!(gl_filtering_from(&Filtering::LinearMipmapLinear), 0x2703);
}

#[test]
fn stated_codes_match_the_driver_bindings() {
    assert_eq!(codes::FALSE, gl::FALSE);
    assert_eq!(codes::FRONT_AND_BACK, gl::FRONT_AND_BACK);
    assert_eq!(codes::UNPACK_ALIGNMENT, gl::UNPACK_ALIGNMENT);
    assert_eq!(codes::TEXTURE_2D, gl::TEXTURE_2D);
    assert_eq!(codes::UNSIGNED_BYTE, gl::UNSIGNED_BYTE);
    assert_eq!(codes::RED, gl::RED);
    assert_eq!(codes::RGB, gl::RGB);
    assert_eq!(codes::RGBA, gl::RGBA);
    assert_eq!(codes::POINT, gl::POINT);
    assert_eq!(codes::LINE, gl::LINE);
    assert_eq!(codes::FILL, gl::FILL);
    assert_eq!(codes::NEAREST, gl::NEAREST);
    assert_eq!(codes::LINEAR, gl::LINEAR);
    assert_eq!(codes::NEAREST_MIPMAP_NEAREST, gl::NEAREST_MIPMAP_NEAREST);
    assert_eq!(codes::LINEAR_MIPMAP_NEAREST, gl::LINEAR_MIPMAP_NEAREST);
    assert_eq!(codes::NEAREST_MIPMAP_LINEAR, gl::NEAREST_MIPMAP_LINEAR);
    assert_eq!(codes::LINEAR_MIPMAP_LINEAR, gl::LINEAR_MIPMAP_LINEAR);
    assert_eq!(codes::TEXTURE_MAG_FILTER, gl::TEXTURE_MAG_FILTER);
    assert_eq!(codes::TEXTURE_MIN_FILTER, gl::TEXTURE_MIN_FILTER);
    assert_eq!(codes::TEXTURE_WRAP_S, gl::TEXTURE_WRAP_S);
    assert_eq!(codes::TEXTURE_WRAP_T, gl::TEXTURE_WRAP_T);
    assert_eq!(codes::REPEAT, gl::REPEAT);
    assert_eq!(codes::CLAMP_TO_BORDER, gl::CLAMP_TO_BORDER);
    assert_eq!(codes::CLAMP_TO_EDGE, gl::CLAMP_TO_EDGE);
    assert_eq!(codes::MIRRORED_REPEAT, gl::MIRRORED_REPEAT);
    assert_eq!(codes::TEXTURE0, gl::TEXTURE0);
    assert_eq!(codes::FRAGMENT_SHADER, gl::FRAGMENT_SHADER);
    assert_eq!(codes::VERTEX_SHADER, gl::VERTEX_SHADER);
}

#[test]
fn format_codes_by_channel_count() {
    assert_eq!(gl_format_from(&ImageFormat::RGB), Ok(0x1907));
    assert_eq!(gl_format_from(&ImageFormat::RGBA), Ok(0x1908));
    assert_eq!(gl_format_from(&ImageFormat::R), Ok(0x1903));
    assert_eq!(gl_format_from(&ImageFormat::Unicolor), Ok(0x1903));
    assert_eq!(gl_format_from(&ImageFormat::RG), Err(TextureError::UnsupportedFormat));
    assert_eq!(gl_format_from(&ImageFormat::RGB), Ok(gl::RGB));
    assert_eq!(gl_format_from(&ImageFormat::RGBA), Ok(gl::RGBA));
    assert_eq!(gl_format_from(&ImageFormat::Unicolor), Ok(gl::RED));
}

#[test]
fn channels_and_alignment() {
    assert_eq!(ImageFormat::RGB.channels(), 3);
    assert_eq!(ImageFormat::RGBA.channels(), 4);
    assert_eq!(ImageFormat::RG.channels(), 2);
    assert_eq!(ImageFormat::R.channels(), 1);
    assert_eq!(ImageFormat::Unicolor.channels(), 1);
    assert_eq!(ImageFormat::RGB.unpack_alignment(), 1);
    assert_eq!(ImageFormat::RGBA.unpack_alignment(), 4);
    assert_eq!(ImageFormat::R.unpack_alignment(), 1);
    assert_eq!(ImageFormat::Unicolor.unpack_alignment(), 1);
}

#[test]
fn create_keeps_pixels_and_description() {
    let data = vec![1u8, 2, 3, 4, 5, 6, 7, 8, 9, 10, 11, 12];
    let made = request(data.clone(), 2, 2, ImageFormat::RGB, true).unwrap();
    assert_eq!(made.pixels(), &data);
    assert_eq!(
        made.description(),
        &Texture {
            id: 0,
            kind: ImageKind::Specular,
            format: ImageFormat::RGB,
            size: TextureSize::TwoD { width: 2, height: 2 },
            s_wrapping: Wrapping::ClampToEdge,
            t_wrapping: Wrapping::MirroredRepeat,
            min_filtering: Filtering::LinearMipmapLinear,
            mag_filtering: Filtering::Nearest,
            mipmapping: true,
        }
    );
    assert_eq!(made.byte_len(), 12);
}

#[test]
fn create_refuses_width_beyond_signed_range() {
    let refused = request(Vec::new(), 0x8000_0000, 1, ImageFormat::RGB, false);
    assert_eq!(refused.err(), Some(TextureError::DimensionOverflow));
    let refused = request(Vec::new(), u32::MAX, 1, ImageFormat::RGBA, false);
    assert_eq!(refused.err(), Some(TextureError::DimensionOverflow));
}

#[test]
fn create_refuses_height_beyond_signed_range() {
    let refused = request(Vec::new(), 1, 0x8000_0000, ImageFormat::Unicolor, false);
    assert_eq!(refused.err(), Some(TextureError::DimensionOverflow));
    let refused = request(Vec::new(), 0x8000_0000, 0x8000_0000, ImageFormat::RGB, true);
    assert_eq!(refused.err(), Some(TextureError::DimensionOverflow));
}

#[test]
fn create_accepts_the_largest_signed_dimensions() {
    let made = request(Vec::new(), 0x7fff_ffff, 0x7fff_ffff, ImageFormat::RGBA, false).unwrap();
    assert_eq!(
        made.description().size,
        TextureSize::TwoD { width: 0x7fff_ffff, height: 0x7fff_ffff }
    );
    assert_eq!(made.byte_len(), 0x7fff_ffffu64 * 0x7fff_ffffu64 * 4);
}

#[test]
fn create_refuses_two_channels() {
    let refused = request(vec![0u8; 8], 2, 2, ImageFormat::RG, false);
    assert_eq!(refused.err(), Some(TextureError::UnsupportedFormat));
}

#[test]
fn create_accepts_one_three_and_four_channels() {
    assert!(request(vec![0u8; 4], 2, 2, ImageFormat::R, false).is_ok());
    assert!(request(vec![0u8; 4], 2, 2, ImageFormat::Unicolor, false).is_ok());
    assert!(request(vec![0u8; 12], 2, 2, ImageFormat::RGB, false).is_ok());
    assert!(request(vec![0u8; 16], 2, 2, ImageFormat::RGBA, false).is_ok());
}

#[test]
fn dimension_overflow_is_reported_before_the_format() {
    let refused = request(Vec::new(), 0x8000_0000, 2, ImageFormat::RG, false);
    assert_eq!(refused.err(), Some(TextureError::DimensionOverflow));
}

#[test]
fn upload_of_rgb_with_mipmaps() {
    let data = vec![9u8; 2 * 3 * 3];
    let made = request(data.clone(), 2, 3, ImageFormat::RGB, true).unwrap();
    let mut ctx = GpuContext::new();
    let upload = made.upload(&mut ctx, 7);
    assert_eq!(upload.texture.id, 7);
    assert_eq!(upload.texture.kind, ImageKind::Specular);
    assert_eq!(upload.texture.format, ImageFormat::RGB);
    assert_eq!(upload.texture.size, TextureSize::TwoD { width: 2, height: 3 });
    assert_eq!(upload.pixels, data);
    assert_eq!(
        upload.commands,
        vec![
            GlCommand::PixelStore { parameter: gl::UNPACK_ALIGNMENT, value: 1 },
            GlCommand::BindTexture { target: gl::TEXTURE_2D, texture: 7 },
            GlCommand::TexImage2D {
                target: gl::TEXTURE_2D,
                level: 0,
                internal_format: 0x1907,
                width: 2,
                height: 3,
                border: 0,
                format: gl::RGB,
                pixel_type: gl::UNSIGNED_BYTE,
            },
            GlCommand::TexParameter {
                target: gl::TEXTURE_2D,
                parameter: gl::TEXTURE_WRAP_S,
                value: 0x812F,
            },
            GlCommand::TexParameter {
                target: gl::TEXTURE_2D,
                parameter: gl::TEXTURE_WRAP_T,
                value: 0x8370,
            },
            GlCommand::TexParameter {
                target: gl::TEXTURE_2D,
                parameter: gl::TEXTURE_MIN_FILTER,
                value: 0x2703,
            },
            GlCommand::TexParameter {
                target: gl::TEXTURE_2D,
                parameter: gl::TEXTURE_MAG_FILTER,
                value: 0x2600,
            },
            GlCommand::GenerateMipmap { target: gl::TEXTURE_2D },
        ]
    );
    assert_eq!(ctx.bound_texture(0), 7);
    assert_eq!(ctx.unit(), 0);
    assert_eq!(ctx.program(), 0);
}

#[test]
fn upload_of_rgba_aligns_rows_to_four_bytes() {
    let made = request(vec![0u8; 16], 2, 2, ImageFormat::RGBA, false).unwrap();
    let mut ctx = GpuContext::new();
    let upload = made.upload(&mut ctx, 3);
    assert_eq!(upload.commands.len(), 7);
    assert_eq!(
        upload.commands[0],
        GlCommand::PixelStore { parameter: 0x0CF5, value: 4 }
    );
    assert_eq!(
        upload.commands[2],
        GlCommand::TexImage2D {
            target: 0x0DE1,
            level: 0,
            internal_format: 0x1908,
            width: 2,
            height: 2,
            border: 0,
            format: 0x1908,
            pixel_type: 0x1401,
        }
    );
}

#[test]
fn upload_binds_at_the_selected_unit_only() {
    let mut ctx = GpuContext::new();
    let first = sample_texture(5);
    first.bind(&mut ctx, 2);
    let made = request(vec![0u8; 4], 2, 2, ImageFormat::Unicolor, false).unwrap();
    ctx.apply(GlCommand::ActiveTexture { unit: gl::TEXTURE0 + 1 });
    let upload = made.upload(&mut ctx, 9);
    assert_eq!(upload.texture.id, 9);
    assert_eq!(ctx.bound_texture(1), 9);
    assert_eq!(ctx.bound_texture(2), 5);
    assert_eq!(ctx.bound_texture(0), 0);
    assert_eq!(ctx.unit(), 1);
}

#[test]
fn from_file_reverses_the_rows() {
    let image = DecodedImage {
        width: 2,
        height: 3,
        color: ColorKind::Rgb8,
        data: vec![
            1, 2, 3, 4, 5, 6, //
            7, 8, 9, 10, 11, 12, //
            13, 14, 15, 16, 17, 18,
        ],
    };
    let made = Texture::from_file(
        image,
        ImageKind::Diffuse,
        Wrapping::Repeat,
        Wrapping::ClampToBorder,
        Filtering::LinearMipmapNearest,
        Filtering::Linear,
        true,
    )
    .unwrap();
    assert_eq!(
        made.pixels(),
        &vec![
            13u8, 14, 15, 16, 17, 18, //
            7, 8, 9, 10, 11, 12, //
            1, 2, 3, 4, 5, 6,
        ]
    );
    assert_eq!(
        made.description(),
        &Texture {
            id: 0,
            kind: ImageKind::Diffuse,
            format: ImageFormat::RGB,
            size: TextureSize::TwoD { width: 2, height: 3 },
            s_wrapping: Wrapping::Repeat,
            t_wrapping: Wrapping::ClampToBorder,
            min_filtering: Filtering::LinearMipmapNearest,
            mag_filtering: Filtering::Linear,
            mipmapping: true,
        }
    );
}

#[test]
fn from_file_of_one_row_keeps_it() {
    let image = DecodedImage {
        width: 2,
        height: 1,
        color: ColorKind::Rgb8,
        data: vec![1, 2, 3, 4, 5, 6],
    };
    let made = Texture::from_file(
        image,
        ImageKind::Normal,
        Wrapping::Repeat,
        Wrapping::Repeat,
        Filtering::Nearest,
        Filtering::Nearest,
        false,
    )
    .unwrap();
    assert_eq!(made.pixels(), &vec![1u8, 2, 3, 4, 5, 6]);
}

#[test]
fn from_file_of_an_empty_picture() {
    let image = DecodedImage { width: 0, height: 5, color: ColorKind::Rgb8, data: Vec::new() };
    let made = Texture::from_file(
        image,
        ImageKind::Diffuse,
        Wrapping::Repeat,
        Wrapping::Repeat,
        Filtering::Nearest,
        Filtering::Nearest,
        false,
    )
    .unwrap();
    assert!(made.pixels().is_empty());
    assert_eq!(made.description().size, TextureSize::TwoD { width: 0, height: 5 });
}

fn file_error(image: DecodedImage) -> Option<TextureError> {
    Texture::from_file(
        image,
        ImageKind::Diffuse,
        Wrapping::Repeat,
        Wrapping::Repeat,
        Filtering::Linear,
        Filtering::Linear,
        false,
    )
    .err()
}

#[test]
fn from_file_refuses_other_encodings() {
    let kinds = [
        ColorKind::L8,
        ColorKind::La8,
        ColorKind::Rgba8,
        ColorKind::L16,
        ColorKind::La16,
        ColorKind::Rgb16,
        ColorKind::Rgba16,
        ColorKind::Rgb32F,
        ColorKind::Rgba32F,
        ColorKind::Other,
    ];
    for color in kinds {
        let image = DecodedImage { width: 1, height: 1, color, data: vec![0, 0, 0] };
        assert_eq!(file_error(image), Some(TextureError::UnsupportedImageEncoding));
    }
}

#[test]
fn from_file_refuses_a_buffer_of_the_wrong_length() {
    let short = DecodedImage { width: 2, height: 2, color: ColorKind::Rgb8, data: vec![0; 11] };
    assert_eq!(file_error(short), Some(TextureError::UnsupportedImageEncoding));
    let long = DecodedImage { width: 2, height: 2, color: ColorKind::Rgb8, data: vec![0; 13] };
    assert_eq!(file_error(long), Some(TextureError::UnsupportedImageEncoding));
}

#[test]
fn from_file_refuses_dimensions_beyond_signed_range() {
    let wide = DecodedImage {
        width: 0x8000_0000,
        height: 0,
        color: ColorKind::Rgb8,
        data: Vec::new(),
    };
    assert_eq!(file_error(wide), Some(TextureError::DimensionOverflow));
    let tall = DecodedImage {
        width: 0,
        height: 0x8000_0000,
        color: ColorKind::Rgba8,
        data: Vec::new(),
    };
    assert_eq!(file_error(tall), Some(TextureError::DimensionOverflow));
}

#[test]
fn from_bitmap_uses_the_text_policy() {
    let bitmap = GlyphBitmap { buffer: vec![0, 128, 255, 64, 32, 16], width: 3, rows: 2 };
    let made = Texture::from_bitmap(bitmap).unwrap();
    assert_eq!(made.pixels(), &vec![0u8, 128, 255, 64, 32, 16]);
    assert_eq!(
        made.description(),
        &Texture {
            id: 0,
            kind: ImageKind::Diffuse,
            format: ImageFormat::Unicolor,
            size: TextureSize::TwoD { width: 3, height: 2 },
            s_wrapping: Wrapping::Repeat,
            t_wrapping: Wrapping::Repeat,
            min_filtering: Filtering::Linear,
            mag_filtering: Filtering::Linear,
            mipmapping: false,
        }
    );
    let mut ctx = GpuContext::new();
    let upload = made.upload(&mut ctx, 11);
    assert_eq!(upload.commands.len(), 7);
    assert_eq!(
        upload.commands[0],
        GlCommand::PixelStore { parameter: gl::UNPACK_ALIGNMENT, value: 1 }
    );
    assert_eq!(
        upload.commands[2],
        GlCommand::TexImage2D {
            target: gl::TEXTURE_2D,
            level: 0,
            internal_format: 0x1903,
            width: 3,
            height: 2,
            border: 0,
            format: gl::RED,
            pixel_type: gl::UNSIGNED_BYTE,
        }
    );
    assert_eq!(
        upload.commands[3],
        GlCommand::TexParameter {
            target: gl::TEXTURE_2D,
            parameter: gl::TEXTURE_WRAP_S,
            value: 0x2901,
        }
    );
    assert_eq!(
        upload.commands[5],
        GlCommand::TexParameter {
            target: gl::TEXTURE_2D,
            parameter: gl::TEXTURE_MIN_FILTER,
            value: 0x2601,
        }
    );
}

#[test]
fn from_bitmap_refuses_negative_counts() {
    let bitmap = GlyphBitmap { buffer: Vec::new(), width: -1, rows: 2 };
    assert_eq!(Texture::from_bitmap(bitmap).err(), Some(TextureError::DimensionOverflow));
    let bitmap = GlyphBitmap { buffer: Vec::new(), width: 2, rows: i32::MIN };
    assert_eq!(Texture::from_bitmap(bitmap).err(), Some(TextureError::DimensionOverflow));
}

#[test]
fn from_bitmap_of_an_empty_glyph() {
    let bitmap = GlyphBitmap { buffer: Vec::new(), width: 0, rows: 0 };
    let made = Texture::from_bitmap(bitmap).unwrap();
    assert_eq!(made.byte_len(), 0);
    assert_eq!(made.description().size, TextureSize::TwoD { width: 0, height: 0 });
}

#[test]
fn bind_selects_the_unit_and_binds() {
    let texture = sample_texture(42);
    let mut ctx = GpuContext::new();
    let commands = texture.bind(&mut ctx, 3);
    assert_eq!(
        commands,
        vec![
            GlCommand::ActiveTexture { unit: gl::TEXTURE0 + 3 },
            GlCommand::BindTexture { target: gl::TEXTURE_2D, texture: 42 },
        ]
    );
    assert_eq!(commands[0], GlCommand::ActiveTexture { unit: 0x84C3 });
    assert_eq!(ctx.unit(), 3);
    assert_eq!(ctx.bound_texture(3), 42);
    assert_eq!(ctx.bound_texture(0), 0);
}

#[test]
fn bind_leaves_other_units_alone() {
    let diffuse = sample_texture(1);
    let specular = sample_texture(2);
    let mut ctx = GpuContext::new();
    diffuse.bind(&mut ctx, 0);
    specular.bind(&mut ctx, 1);
    assert_eq!(ctx.bound_texture(0), 1);
    assert_eq!(ctx.bound_texture(1), 2);
    specular.bind(&mut ctx, 0);
    assert_eq!(ctx.bound_texture(0), 2);
    assert_eq!(ctx.bound_texture(1), 2);
    assert_eq!(ctx.unit(), 0);
}

#[test]
fn bind_at_the_last_unit_code() {
    let texture = sample_texture(8);
    let mut ctx = GpuContext::new();
    let unit = u32::MAX - gl::TEXTURE0;
    let commands = texture.bind(&mut ctx, unit);
    assert_eq!(commands[0], GlCommand::ActiveTexture { unit: u32::MAX });
    assert_eq!(ctx.bound_texture(unit), 8);
}

#[test]
fn set_param_i_addresses_the_bound_texture() {
    let texture = sample_texture(4);
    let mut ctx = GpuContext::new();
    texture.bind(&mut ctx, 0);
    let command = texture.set_param_i(&ctx, gl::TEXTURE_WRAP_S, gl::REPEAT as i32);
    assert_eq!(
        command,
        GlCommand::TexParameter { target: 0x0DE1, parameter: 0x2802, value: 0x2901 }
    );
}

#[test]
fn set_wrap_changes_the_record_and_asks_twice() {
    let mut texture = sample_texture(4);
    let mut ctx = GpuContext::new();
    texture.bind(&mut ctx, 1);
    let commands = texture.set_wrap(&ctx, Wrapping::ClampToEdge, Wrapping::ClampToBorder);
    assert_eq!(
        commands,
        vec![
            GlCommand::TexParameter {
                target: gl::TEXTURE_2D,
                parameter: gl::TEXTURE_WRAP_S,
                value: gl::CLAMP_TO_EDGE as i32,
            },
            GlCommand::TexParameter {
                target: gl::TEXTURE_2D,
                parameter: gl::TEXTURE_WRAP_T,
                value: gl::CLAMP_TO_BORDER as i32,
            },
        ]
    );
    let mut expected = sample_texture(4);
    expected.s_wrapping = Wrapping::ClampToEdge;
    expected.t_wrapping = Wrapping::ClampToBorder;
    assert_eq!(texture, expected);
}

#[test]
fn set_filter_changes_the_record_and_asks_twice() {
    let mut texture = sample_texture(4);
    let mut ctx = GpuContext::new();
    texture.bind(&mut ctx, 1);
    let commands = texture.set_filter(&ctx, Filtering::NearestMipmapLinear, Filtering::Nearest);
    assert_eq!(
        commands,
        vec![
            GlCommand::TexParameter {
                target: gl::TEXTURE_2D,
                parameter: gl::TEXTURE_MIN_FILTER,
                value: gl::NEAREST_MIPMAP_LINEAR as i32,
            },
            GlCommand::TexParameter {
                target: gl::TEXTURE_2D,
                parameter: gl::TEXTURE_MAG_FILTER,
                value: gl::NEAREST as i32,
            },
        ]
    );
    let mut expected = sample_texture(4);
    expected.min_filtering = Filtering::NearestMipmapLinear;
    expected.mag_filtering = Filtering::Nearest;
    assert_eq!(texture, expected);
}

#[test]
fn destroy_unbinds_everywhere() {
    let doomed = sample_texture(6);
    let kept = sample_texture(7);
    let mut ctx = GpuContext::new();
    doomed.bind(&mut ctx, 0);
    kept.bind(&mut ctx, 1);
    doomed.bind(&mut ctx, 2);
    let command = doomed.destroy(&mut ctx);
    assert_eq!(command, GlCommand::DeleteTexture { texture: 6 });
    assert_eq!(ctx.bound_texture(0), 0);
    assert_eq!(ctx.bound_texture(1), 7);
    assert_eq!(ctx.bound_texture(2), 0);
    assert_eq!(ctx.unit(), 2);
}

#[test]
fn reversing_the_rows_twice_restores_the_picture() {
    let data: Vec<u8> = (0u8..36).collect();
    let once = Texture::from_file(
        DecodedImage { width: 3, height: 4, color: ColorKind::Rgb8, data: data.clone() },
        ImageKind::Diffuse,
        Wrapping::Repeat,
        Wrapping::Repeat,
        Filtering::Linear,
        Filtering::Linear,
        false,
    )
    .unwrap();
    assert_ne!(once.pixels(), &data);
    assert_eq!(once.pixels().len(), 36);
    assert_eq!(&once.pixels()[0..9], &data[27..36]);
    assert_eq!(&once.pixels()[27..36], &data[0..9]);
    let twice = Texture::from_file(
        DecodedImage { width: 3, height: 4, color: ColorKind::Rgb8, data: once.pixels().clone() },
        ImageKind::Diffuse,
        Wrapping::Repeat,
        Wrapping::Repeat,
        Filtering::Linear,
        Filtering::Linear,
        false,
    )
    .unwrap();
    assert_eq!(twice.pixels(), &data);
}

#[test]
fn upload_without_mipmaps_asks_for_none() {
    let made = request(vec![0u8; 12], 2, 2, ImageFormat::RGB, false).unwrap();
    let mut ctx = GpuContext::new();
    let upload = made.upload(&mut ctx, 1);
    assert_eq!(upload.commands.len(), 7);
    assert!(!upload
        .commands
        .iter()
        .any(|command| matches!(command, GlCommand::GenerateMipmap { .. })));
    assert!(!upload.texture.mipmapping);
}
