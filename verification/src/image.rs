//! Preparing a frame for an image encoder.
//!
//! The encoders themselves live with the caller. What is decided here is which
//! encoder a file extension names, whether it takes the frame's pixel format,
//! and in which byte order it gets the pixels.

use vstd::prelude::*;
use vstd::string::*;

use crate::color::{frame_bytes, spec_bytes_per_pixel, spec_frame_bytes, ColorPixelFormat};

verus! {

/// The file formats a frame can be saved in.
#[derive(Debug, Clone, Copy, PartialEq, Eq, Structural)]
pub enum ImageKind {
    Jxr,
    Exr,
    Png,
    Bmp,
    Jpeg,
    Tiff,
}

/// Order and width of the samples handed to an encoder.
#[derive(Debug, Clone, Copy, PartialEq, Eq, Structural)]
pub enum SampleLayout {
    /// The frame's own bytes: blue, green, red, alpha, 8 bit each.
    Bgra8,
    /// The frame's own bytes: red, green, blue, alpha, half floats.
    Rgba16f,
    /// Red, green, blue, alpha, 8 bit each.
    Rgba8,
    /// Red, green, blue, 8 bit each.
    Rgb8,
}

/// Why a frame cannot be saved.
#[derive(Debug, Clone, Copy, PartialEq, Eq, Structural)]
pub enum SaveError {
    /// No encoder is known for the file extension.
    UnsupportedExtension,
    /// The encoder takes 8-bit frames only.
    SdrOnly,
    /// The data is shorter than the frame, or not a whole number of samples.
    BadLength,
}

/// What to hand to which encoder.
pub struct EncodeJob {
    pub kind: ImageKind,
    pub layout: SampleLayout,
    pub width: u32,
    pub height: u32,
    pub pixels: Vec<u8>,
}

/// The samples of a frame for the OpenEXR encoder, four per pixel in the order
/// red, green, blue, alpha.
pub enum ExrSamples {
    /// 8-bit samples; 255 stands for 1.0.
    Bytes(Vec<u8>),
    /// The bit patterns of half-float samples.
    Halves(Vec<u16>),
}

/// An ASCII capital letter as a small letter; any other character as it is.
pub open spec fn spec_ascii_lower(c: char) -> char {
    if 'A' <= c && c <= 'Z' {
        ((c as u8) + 32) as char
    } else {
        c
    }
}

/// Whether `ext` is `word` but for the case of its ASCII letters.
pub open spec fn spec_ext_is(ext: Seq<char>, word: Seq<char>) -> bool {
    ext.len() == word.len() && forall|i: int|
        0 <= i < ext.len() ==> spec_ascii_lower(#[trigger] ext[i]) == word[i]
}

/// The file format that a file extension names, whatever the case of its
/// letters.
pub open spec fn spec_image_kind(ext: Seq<char>) -> Option<ImageKind> {
    if spec_ext_is(ext, seq!['j', 'x', 'r']) {
        Some(ImageKind::Jxr)
    } else if spec_ext_is(ext, seq!['e', 'x', 'r']) {
        Some(ImageKind::Exr)
    } else if spec_ext_is(ext, seq!['p', 'n', 'g']) {
        Some(ImageKind::Png)
    } else if spec_ext_is(ext, seq!['b', 'm', 'p']) {
        Some(ImageKind::Bmp)
    } else if spec_ext_is(ext, seq!['j', 'p', 'g']) || spec_ext_is(
        ext,
        seq!['j', 'p', 'e', 'g'],
    ) {
        Some(ImageKind::Jpeg)
    } else if spec_ext_is(ext, seq!['t', 'i', 'f', 'f']) || spec_ext_is(ext, seq!['t', 'i', 'f']) {
        Some(ImageKind::Tiff)
    } else {
        None
    }
}

/// Whether a file format takes frames of 8-bit pixels only.
pub open spec fn spec_sdr_only(kind: ImageKind) -> bool {
    kind == ImageKind::Png || kind == ImageKind::Bmp || kind == ImageKind::Jpeg || kind
        == ImageKind::Tiff
}

/// Index of the byte of a BGRA pixel row that lands at index `i` once blue and
/// red have changed places. Bytes behind the last whole pixel stay.
pub open spec fn spec_swapped_index(i: int, len: int) -> int {
    if i >= len - len % 4 {
        i
    } else if i % 4 == 0 {
        i + 2
    } else if i % 4 == 2 {
        i - 2
    } else {
        i
    }
}

/// The bytes of whole BGRA pixels with blue and red exchanged.
pub open spec fn spec_bgra_to_rgba(data: Seq<u8>) -> Seq<u8> {
    Seq::new(data.len(), |i: int| data[spec_swapped_index(i, data.len() as int)])
}

/// The bytes of whole RGBA pixels without their alpha.
pub open spec fn spec_rgba_to_rgb(rgba: Seq<u8>) -> Seq<u8> {
    Seq::new((rgba.len() / 4 * 3) as nat, |i: int| rgba[i / 3 * 4 + i % 3])
}

/// The 16-bit words that pairs of bytes spell, low byte first.
pub open spec fn spec_halves(data: Seq<u8>) -> Seq<u16> {
    Seq::new(
        (data.len() / 2) as nat,
        |i: int| (data[2 * i] as int + 256 * (data[2 * i + 1] as int)) as u16,
    )
}

fn ascii_lower(c: char) -> (lower: char)
    ensures
        lower == spec_ascii_lower(c),
{
    if 'A' <= c && c <= 'Z' {
        ((c as u8) + 32) as char
    } else {
        c
    }
}

fn ext_is3(ext: &str, a: char, b: char, c: char) -> (same: bool)
    ensures
        same == spec_ext_is(ext@, seq![a, b, c]),
{
    if ext.unicode_len() != 3 {
        return false;
    }
    let same: bool = ascii_lower(ext.get_char(0)) == a && ascii_lower(ext.get_char(1)) == b
        && ascii_lower(ext.get_char(2)) == c;
    proof {
        let word = seq![a, b, c];
        if !same {
            assert(word[0] == a && word[1] == b && word[2] == c);
        }
    }
    same
}

fn ext_is4(ext: &str, a: char, b: char, c: char, d: char) -> (same: bool)
    ensures
        same == spec_ext_is(ext@, seq![a, b, c, d]),
{
    if ext.unicode_len() != 4 {
        return false;
    }
    let same: bool = ascii_lower(ext.get_char(0)) == a && ascii_lower(ext.get_char(1)) == b
        && ascii_lower(ext.get_char(2)) == c && ascii_lower(ext.get_char(3)) == d;
    proof {
        let word = seq![a, b, c, d];
        if !same {
            assert(word[0] == a && word[1] == b && word[2] == c && word[3] == d);
        }
    }
    same
}

/// Find the file format that a file extension names. The extension comes
/// without its dot; the case of its letters does not matter.
pub fn image_kind(ext: &str) -> (kind: Option<ImageKind>)
    ensures
        kind == spec_image_kind(ext@),
{
    if ext_is3(ext, 'j', 'x', 'r') {
        Some(ImageKind::Jxr)
    } else if ext_is3(ext, 'e', 'x', 'r') {
        Some(ImageKind::Exr)
    } else if ext_is3(ext, 'p', 'n', 'g') {
        Some(ImageKind::Png)
    } else if ext_is3(ext, 'b', 'm', 'p') {
        Some(ImageKind::Bmp)
    } else if ext_is3(ext, 'j', 'p', 'g') || ext_is4(ext, 'j', 'p', 'e', 'g') {
        Some(ImageKind::Jpeg)
    } else if ext_is4(ext, 't', 'i', 'f', 'f') || ext_is3(ext, 't', 'i', 'f') {
        Some(ImageKind::Tiff)
    } else {
        None
    }
}

fn swapped_index(i: usize, len: usize) -> (from: usize)
    requires
        i < len,
    ensures
        from == spec_swapped_index(i as int, len as int),
        from < len,
{
    let whole: usize = len - len % 4;
    if i >= whole {
        i
    } else if i % 4 == 0 {
        i + 2
    } else if i % 4 == 2 {
        i - 2
    } else {
        i
    }
}

/// Exchange blue and red in every whole pixel of BGRA bytes.
pub fn bgra_to_rgba(data: &[u8]) -> (rgba: Vec<u8>)
    ensures
        rgba@ == spec_bgra_to_rgba(data@),
{
    let n: usize = data.len();
    let mut rgba: Vec<u8> = Vec::with_capacity(n);
    let mut i: usize = 0;
    while i < n
        invariant
            n == data@.len(),
            i <= n,
            rgba@.len() == i,
            forall|k: int| 0 <= k < i ==> rgba@[k] == data@[spec_swapped_index(k, n as int)],
        decreases n - i,
    {
        let from: usize = swapped_index(i, n);
        rgba.push(data[from]);
        i += 1;
    }
    assert(rgba@ =~= spec_bgra_to_rgba(data@));
    rgba
}

/// Drop the alpha of every whole pixel of RGBA bytes.
pub fn rgba_to_rgb(rgba: &[u8]) -> (rgb: Vec<u8>)
    ensures
        rgb@ == spec_rgba_to_rgb(rgba@),
{
    let n: usize = rgba.len();
    let pixels: usize = n / 4;
    let mut rgb: Vec<u8> = Vec::new();
    let mut p: usize = 0;
    while p < pixels
        invariant
            n == rgba@.len(),
            pixels == n / 4,
            p <= pixels,
            rgb@.len() == p * 3,
            forall|k: int| 0 <= k < p * 3 ==> rgb@[k] == rgba@[k / 3 * 4 + k % 3],
        decreases pixels - p,
    {
        rgb.push(rgba[p * 4]);
        rgb.push(rgba[p * 4 + 1]);
        rgb.push(rgba[p * 4 + 2]);
        p += 1;
    }
    assert(rgb@ =~= spec_rgba_to_rgb(rgba@));
    rgb
}

/// Spell pairs of bytes as 16-bit words, low byte first. An odd byte at the
/// end is left out.
pub fn halves(data: &[u8]) -> (words: Vec<u16>)
    ensures
        words@ == spec_halves(data@),
{
    let n: usize = data.len();
    let count: usize = n / 2;
    let mut words: Vec<u16> = Vec::with_capacity(count);
    let mut i: usize = 0;
    while i < count
        invariant
            n == data@.len(),
            count == n / 2,
            i <= count,
            words@.len() == i,
            forall|k: int|
                0 <= k < i ==> words@[k] == (data@[2 * k] as int + 256 * (data@[2 * k + 1] as int))
                    as u16,
        decreases count - i,
    {
        let lo: u16 = data[2 * i] as u16;
        let hi: u16 = data[2 * i + 1] as u16;
        words.push(lo + 256 * hi);
        i += 1;
    }
    assert(words@ =~= spec_halves(data@));
    words
}

/// Prepare a frame for saving to a file with the extension `ext`.
///
/// PNG, BMP, JPEG and TIFF take 8-bit frames only and get their pixels as
/// RGBA bytes, JPEG without the alpha. JPEG XR and OpenEXR take both formats
/// and get the frame's bytes as they are.
pub fn save(ext: &str, data: &[u8], width: u32, height: u32, format: ColorPixelFormat) -> (job:
    Result<EncodeJob, SaveError>)
    ensures
        spec_image_kind(ext@) is None ==> (job matches Err(e) && e
            == SaveError::UnsupportedExtension),
        spec_image_kind(ext@) matches Some(kind) ==> {
            if spec_sdr_only(kind) && format != ColorPixelFormat::Bgra8 {
                job matches Err(e) && e == SaveError::SdrOnly
            } else {
                job matches Ok(j) && j.kind == kind && j.width == width && j.height == height && (
                if kind == ImageKind::Jpeg {
                    j.layout == SampleLayout::Rgb8 && j.pixels@ == spec_rgba_to_rgb(
                        spec_bgra_to_rgba(data@),
                    )
                } else if spec_sdr_only(kind) {
                    j.layout == SampleLayout::Rgba8 && j.pixels@ == spec_bgra_to_rgba(data@)
                } else {
                    j.pixels@ == data@ && j.layout == (if format == ColorPixelFormat::Bgra8 {
                        SampleLayout::Bgra8
                    } else {
                        SampleLayout::Rgba16f
                    })
                })
            }
        },
{
    let kind = match image_kind(ext) {
        Some(kind) => kind,
        None => {
            return Err(SaveError::UnsupportedExtension);
        },
    };
    match kind {
        ImageKind::Jxr | ImageKind::Exr => {
            let layout = match format {
                ColorPixelFormat::Bgra8 => SampleLayout::Bgra8,
                ColorPixelFormat::Rgba16f => SampleLayout::Rgba16f,
            };
            let pixels = vstd::slice::slice_to_vec(data);
            Ok(EncodeJob { kind, layout, width, height, pixels })
        },
        _ => {
            match format {
                ColorPixelFormat::Bgra8 => {},
                ColorPixelFormat::Rgba16f => {
                    return Err(SaveError::SdrOnly);
                },
            }
            let rgba = bgra_to_rgba(data);
            match kind {
                ImageKind::Jpeg => {
                    let rgb = rgba_to_rgb(rgba.as_slice());
                    Ok(EncodeJob { kind, layout: SampleLayout::Rgb8, width, height, pixels: rgb })
                },
                _ => Ok(
                    EncodeJob { kind, layout: SampleLayout::Rgba8, width, height, pixels: rgba },
                ),
            }
        },
    }
}

/// Prepare a frame for the OpenEXR encoder: four samples per pixel, in the
/// order red, green, blue, alpha, row by row.
///
/// An 8-bit frame gives its bytes with blue and red exchanged; a half-float
/// frame gives the bit patterns of its samples. Data beyond the frame is left
/// out. Fails if the data is shorter than the frame.
pub fn save_exr(data: &[u8], width: u32, height: u32, format: ColorPixelFormat) -> (samples:
    Result<ExrSamples, SaveError>)
    ensures
        data@.len() < spec_frame_bytes(width as nat, height as nat, format) ==> (samples matches Err(
            e,
        ) && e == SaveError::BadLength),
        data@.len() >= spec_frame_bytes(width as nat, height as nat, format) ==> {
            let used = data@.take(spec_frame_bytes(width as nat, height as nat, format) as int);
            match format {
                ColorPixelFormat::Bgra8 => samples matches Ok(ExrSamples::Bytes(bytes))
                    && bytes@ == spec_bgra_to_rgba(used),
                ColorPixelFormat::Rgba16f => samples matches Ok(ExrSamples::Halves(words))
                    && words@ == spec_halves(used),
            }
        },
{
    let have: usize = data.len();
    let needed: usize = match frame_bytes(width, height, format) {
        Some(n) => n,
        None => {
            return Err(SaveError::BadLength);
        },
    };
    if have < needed {
        return Err(SaveError::BadLength);
    }
    let used = vstd::slice::slice_subrange(data, 0, needed);
    assert(used@ =~= data@.take(needed as int));
    match format {
        ColorPixelFormat::Bgra8 => Ok(ExrSamples::Bytes(bgra_to_rgba(used))),
        ColorPixelFormat::Rgba16f => Ok(ExrSamples::Halves(halves(used))),
    }
}

/// Row stride and pixel layout of a frame for the JPEG XR encoder.
#[derive(Debug, Clone, Copy, PartialEq, Eq, Structural)]
pub struct JxrJob {
    pub layout: SampleLayout,
    /// Bytes from one row to the next: the frame has no padding.
    pub stride: u32,
    pub width: u32,
    pub height: u32,
}

/// Prepare a frame for the JPEG XR encoder, which takes both pixel formats as
/// they are. Fails if a row is longer than a 32-bit stride can say, or if the
/// data is shorter than the frame.
pub fn save_jxr(data: &[u8], width: u32, height: u32, format: ColorPixelFormat) -> (job: Result<
    JxrJob,
    SaveError,
>)
    ensures
        job is Ok <==> width * spec_bytes_per_pixel(format) <= u32::MAX && data@.len()
            >= spec_frame_bytes(width as nat, height as nat, format),
        job matches Ok(j) ==> {
            &&& j.stride == width * spec_bytes_per_pixel(format)
            &&& j.width == width
            &&& j.height == height
            &&& j.layout == (if format == ColorPixelFormat::Bgra8 {
                SampleLayout::Bgra8
            } else {
                SampleLayout::Rgba16f
            })
        },
        job matches Err(e) ==> e == SaveError::BadLength,
{
    let have: usize = data.len();
    let (layout, bpp) = match format {
        ColorPixelFormat::Bgra8 => (SampleLayout::Bgra8, 4u64),
        ColorPixelFormat::Rgba16f => (SampleLayout::Rgba16f, 8u64),
    };
    let stride: u64 = width as u64 * bpp;
    if stride > u32::MAX as u64 {
        return Err(SaveError::BadLength);
    }
    match frame_bytes(width, height, format) {
        Some(needed) => {
            if have < needed {
                return Err(SaveError::BadLength);
            }
        },
        None => {
            return Err(SaveError::BadLength);
        },
    }
    Ok(JxrJob { layout, stride: stride as u32, width, height })
}

} // verus!
