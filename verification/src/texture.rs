//! Shapes of GPU textures and the caches keyed by them.
//!
//! The pipeline reuses a few textures from frame to frame: one to cut a
//! window's client area into, one to tone-map into, one to read back from. Each
//! is rebuilt only when the shape asked for differs from the one it has.

use vstd::prelude::*;

use crate::color::ColorPixelFormat;

verus! {

/// Platform code of the 8-bit BGRA texture format.
pub const DXGI_FORMAT_B8G8R8A8_UNORM: u32 = 87;

/// Platform code of the half-float RGBA texture format.
pub const DXGI_FORMAT_R16G16B16A16_FLOAT: u32 = 10;

/// Size and pixel format of a texture.
#[derive(Debug, Clone, Copy, PartialEq, Eq, Structural)]
pub struct TextureShape {
    pub width: u32,
    pub height: u32,
    pub format: ColorPixelFormat,
}

/// Remembers the shape of the texture a stage holds, if it holds one.
#[derive(Debug, Clone, Copy, PartialEq, Eq, Structural)]
pub struct TextureCache {
    pub shape: Option<TextureShape>,
}

/// The pixel format that a platform format code stands for, if the pipeline
/// supports it.
pub open spec fn spec_color_format(code: u32) -> Option<ColorPixelFormat> {
    if code == DXGI_FORMAT_B8G8R8A8_UNORM {
        Some(ColorPixelFormat::Bgra8)
    } else if code == DXGI_FORMAT_R16G16B16A16_FLOAT {
        Some(ColorPixelFormat::Rgba16f)
    } else {
        None
    }
}

/// The platform format code of a pixel format.
pub open spec fn spec_dxgi_format(format: ColorPixelFormat) -> u32 {
    match format {
        ColorPixelFormat::Bgra8 => DXGI_FORMAT_B8G8R8A8_UNORM,
        ColorPixelFormat::Rgba16f => DXGI_FORMAT_R16G16B16A16_FLOAT,
    }
}

/// Map a platform format code to a pixel format; `None` for any code but the
/// two the pipeline supports.
pub fn color_format(code: u32) -> (format: Option<ColorPixelFormat>)
    ensures
        format == spec_color_format(code),
{
    if code == DXGI_FORMAT_B8G8R8A8_UNORM {
        Some(ColorPixelFormat::Bgra8)
    } else if code == DXGI_FORMAT_R16G16B16A16_FLOAT {
        Some(ColorPixelFormat::Rgba16f)
    } else {
        None
    }
}

/// Map a pixel format to its platform format code.
pub fn dxgi_format(format: ColorPixelFormat) -> (code: u32)
    ensures
        code == spec_dxgi_format(format),
        spec_color_format(code) == Some(format),
{
    match format {
        ColorPixelFormat::Bgra8 => DXGI_FORMAT_B8G8R8A8_UNORM,
        ColorPixelFormat::Rgba16f => DXGI_FORMAT_R16G16B16A16_FLOAT,
    }
}

impl TextureCache {
    /// Whether the cache holds a texture of exactly `shape`.
    pub open spec fn spec_holds(self, shape: TextureShape) -> bool {
        self.shape == Some(shape)
    }

    /// A cache that holds no texture yet.
    pub fn new() -> (cache: TextureCache)
        ensures
            cache.shape is None,
    {
        TextureCache { shape: None }
    }

    /// Whether the texture held can be reused for `shape`. If not, the stage
    /// must build a new one before it goes on.
    pub fn holds(&self, shape: TextureShape) -> (hit: bool)
        ensures
            hit == self.spec_holds(shape),
    {
        match self.shape {
            Some(have) => have.width == shape.width && have.height == shape.height
                && have.format == shape.format,
            None => false,
        }
    }

    /// Record that the stage now holds a texture of `shape`.
    pub fn store(&mut self, shape: TextureShape)
        ensures
            final(self).shape == Some(shape),
            final(self).spec_holds(shape),
    {
        self.shape = Some(shape);
    }
}

} // verus!
