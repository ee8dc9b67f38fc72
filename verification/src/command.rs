//! The requests that this crate hands to the graphics driver.
//!
//! The crate never talks to the driver itself. Every operation that changes
//! driver state returns the requests to carry out, in order; the host executes
//! them on the thread that owns the rendering context.

use vstd::prelude::*;

verus! {

/// One request to the driver, with the integer arguments of the call.
#[derive(Clone, Copy, Debug, PartialEq, Eq, Structural)]
pub enum GlCommand {
    /// Set a pixel-store parameter.
    PixelStore { parameter: u32, value: i32 },
    /// Select the texture unit that later texture requests address.
    ActiveTexture { unit: u32 },
    /// Bind a texture to a target of the selected unit.
    BindTexture { target: u32, texture: u32 },
    /// Upload the pixel bytes of the texture being created to the bound texture.
    TexImage2D {
        target: u32,
        level: i32,
        internal_format: i32,
        width: i32,
        height: i32,
        border: i32,
        format: u32,
        pixel_type: u32,
    },
    /// Set an integer sampler parameter of the bound texture.
    TexParameter { target: u32, parameter: u32, value: i32 },
    /// Build the mipmap chain of the bound texture.
    GenerateMipmap { target: u32 },
    /// Release a texture.
    DeleteTexture { texture: u32 },
    /// Attach a compiled stage to a program.
    AttachShader { program: u32, shader: u32 },
    /// Link the attached stages of a program.
    LinkProgram { program: u32 },
    /// Release a compiled stage.
    DeleteShader { shader: u32 },
    /// Release a program.
    DeleteProgram { program: u32 },
    /// Make a program the current pipeline.
    UseProgram { program: u32 },
    /// Choose how polygons of the given faces are rasterised.
    PolygonMode { face: u32, mode: u32 },
    /// Set the drawable rectangle.
    Viewport { x: i32, y: i32, width: i32, height: i32 },
}

} // verus!
