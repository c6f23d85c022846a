//! Pixel formats of captured frames and the sizes that follow from them.

use vstd::prelude::*;

use crate::policy::CapturePolicy;

verus! {

/// Wire format of a frame's pixels.
#[derive(Debug, Clone, Copy, PartialEq, Eq, Structural)]
pub enum ColorPixelFormat {
    /// Four bytes per pixel, ordered blue, green, red, alpha.
    Bgra8,
    /// Eight bytes per pixel: red, green, blue, alpha as half-precision floats.
    Rgba16f,
}

/// Bytes taken by one pixel of `format`.
pub open spec fn spec_bytes_per_pixel(format: ColorPixelFormat) -> nat {
    match format {
        ColorPixelFormat::Bgra8 => 4,
        ColorPixelFormat::Rgba16f => 8,
    }
}

/// Bytes taken by a tightly packed `width` x `height` frame of `format`.
pub open spec fn spec_frame_bytes(width: nat, height: nat, format: ColorPixelFormat) -> nat {
    width * height * spec_bytes_per_pixel(format)
}

/// Whether a frame of `format` must pass the tone-map stage under `policy`.
pub open spec fn spec_requires_processing(format: ColorPixelFormat, policy: CapturePolicy) -> bool {
    policy == CapturePolicy::Auto && format == ColorPixelFormat::Rgba16f
}

/// Format of a frame after the color stage ran (or was skipped) under `policy`.
pub open spec fn spec_output_format(
    format: ColorPixelFormat,
    policy: CapturePolicy,
) -> ColorPixelFormat {
    if spec_requires_processing(format, policy) {
        ColorPixelFormat::Bgra8
    } else {
        format
    }
}

/// Bytes per pixel: 4 for `Bgra8`, 8 for `Rgba16f`.
pub fn bytes_per_pixel(format: ColorPixelFormat) -> (bpp: usize)
    ensures
        bpp == spec_bytes_per_pixel(format),
{
    match format {
        ColorPixelFormat::Bgra8 => 4,
        ColorPixelFormat::Rgba16f => 8,
    }
}

/// Whether the frame needs color processing for the selected policy.
pub fn requires_processing(format: ColorPixelFormat, policy: CapturePolicy) -> (needed: bool)
    ensures
        needed == spec_requires_processing(format, policy),
{
    match (policy, format) {
        (CapturePolicy::Auto, ColorPixelFormat::Rgba16f) => true,
        _ => false,
    }
}

/// Format that leaves the color stage for a frame that entered it as `format`.
pub fn output_format(format: ColorPixelFormat, policy: CapturePolicy) -> (out: ColorPixelFormat)
    ensures
        out == spec_output_format(format, policy),
{
    if requires_processing(format, policy) {
        ColorPixelFormat::Bgra8
    } else {
        format
    }
}

/// Exact byte length of a `width` x `height` frame of `format`, or `None` when
/// the product does not fit in `usize`.
pub fn frame_bytes(width: u32, height: u32, format: ColorPixelFormat) -> (len: Option<usize>)
    ensures
        len is Some <==> spec_frame_bytes(width as nat, height as nat, format) <= usize::MAX,
        len matches Some(n) ==> n == spec_frame_bytes(width as nat, height as nat, format),
{
    let bpp: u64 = match format {
        ColorPixelFormat::Bgra8 => 4,
        ColorPixelFormat::Rgba16f => 8,
    };
    assert((width as int) * (height as int) <= 0xFFFF_FFFF * 0xFFFF_FFFF) by (nonlinear_arith)
        requires
            0 <= width <= 0xFFFF_FFFF,
            0 <= height <= 0xFFFF_FFFF,
    ;
    let area: u64 = (width as u64) * (height as u64);
    if area > u64::MAX / bpp {
        assert(area * bpp > usize::MAX) by (nonlinear_arith)
            requires
                area > u64::MAX / bpp,
                bpp == 4 || bpp == 8,
                usize::MAX <= u64::MAX,
        ;
        return None;
    }
    let total: u64 = area * bpp;
    if total > usize::MAX as u64 {
        None
    } else {
        Some(total as usize)
    }
}

} // verus!
