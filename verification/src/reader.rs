//! Readback of a mapped texture into a tightly packed buffer.
//!
//! A mapped staging texture lays its rows out `row_pitch` bytes apart, which
//! is often more than a row needs. The frame handed on has no such padding:
//! row `y` starts at byte `y * width * bytes_per_pixel`.

use vstd::prelude::*;

use crate::color::{
    bytes_per_pixel, frame_bytes, spec_bytes_per_pixel, spec_frame_bytes, ColorPixelFormat,
};
use crate::error::CaptureError;
use crate::texture::{TextureCache, TextureShape};

verus! {

/// The reader's staging texture, as far as its shape goes.
#[derive(Debug, Clone, Copy, PartialEq, Eq, Structural)]
pub struct TextureReader {
    pub staging: TextureCache,
}

/// Bytes that one row of `width` pixels of `format` takes.
pub open spec fn spec_row_bytes(width: nat, format: ColorPixelFormat) -> nat {
    width * spec_bytes_per_pixel(format)
}

/// Bytes from the start of a mapping to the end of its last row: nothing for
/// an empty texture, else all rows but the last at their full pitch and the
/// last without padding.
pub open spec fn spec_mapped_span(row_pitch: nat, row_bytes: nat, height: nat) -> nat {
    if height == 0 || row_bytes == 0 {
        0
    } else {
        ((height - 1) * row_pitch + row_bytes) as nat
    }
}

/// Whether a mapping of `mapped_len` bytes holds `height` rows of `row_bytes`
/// bytes that start `row_pitch` bytes apart.
pub open spec fn spec_mapping_holds(
    mapped_len: nat,
    row_pitch: nat,
    row_bytes: nat,
    height: nat,
) -> bool {
    spec_mapped_span(row_pitch, row_bytes, height) <= mapped_len
}

/// The rows of a mapping without the padding between them.
pub open spec fn spec_stripped(
    mapped: Seq<u8>,
    row_pitch: nat,
    row_bytes: nat,
    height: nat,
) -> Seq<u8> {
    Seq::new(
        height * row_bytes,
        |i: int| mapped[(i / row_bytes as int) * row_pitch + i % (row_bytes as int)],
    )
}

impl TextureReader {
    /// A reader that has no staging texture yet.
    pub fn new() -> (reader: TextureReader)
        ensures
            reader.staging.shape is None,
    {
        TextureReader { staging: TextureCache::new() }
    }

    /// Whether a staging texture of another shape must be built before a
    /// texture of `shape` can be read.
    pub fn needs_staging(&self, shape: TextureShape) -> (needed: bool)
        ensures
            needed == !self.staging.spec_holds(shape),
    {
        !self.staging.holds(shape)
    }

    /// Record that the staging texture was built for `shape`.
    pub fn staging_built(&mut self, shape: TextureShape)
        ensures
            final(self).staging.spec_holds(shape),
    {
        self.staging.store(shape);
    }
}

/// Number of bytes that a mapping of a `width` x `height` texture of `format`
/// must hold, with rows `row_pitch` bytes apart; `None` if the number does not
/// fit in `usize`.
pub fn mapped_span(row_pitch: usize, width: u32, height: u32, format: ColorPixelFormat) -> (span:
    Option<usize>)
    ensures
        span is Some <==> spec_mapped_span(
            row_pitch as nat,
            spec_row_bytes(width as nat, format),
            height as nat,
        ) <= usize::MAX,
        span matches Some(n) ==> n == spec_mapped_span(
            row_pitch as nat,
            spec_row_bytes(width as nat, format),
            height as nat,
        ),
{
    if height == 0 || width == 0 {
        assert(spec_row_bytes(width as nat, format) == 0 || height == 0) by (nonlinear_arith)
            requires
                height == 0 || width == 0,
                spec_row_bytes(width as nat, format) == width as nat * spec_bytes_per_pixel(
                    format,
                ),
        ;
        return Some(0);
    }
    let bpp: u128 = bytes_per_pixel(format) as u128;
    assert(width * bpp <= 0xFFFF_FFFF * 8 && width * bpp > 0) by (nonlinear_arith)
        requires
            0 < width <= 0xFFFF_FFFF,
            bpp == 4 || bpp == 8,
    ;
    let row_bytes: u128 = width as u128 * bpp;
    assert((height - 1) * row_pitch <= 0xFFFF_FFFF * usize::MAX) by (nonlinear_arith)
        requires
            0 < height <= 0xFFFF_FFFF,
            0 <= row_pitch <= usize::MAX,
    ;
    let span: u128 = (height as u128 - 1) * (row_pitch as u128) + row_bytes;
    if span > usize::MAX as u128 {
        None
    } else {
        Some(span as usize)
    }
}

proof fn lemma_row_index(y: int, x: int, row_bytes: int, row_pitch: int, height: int)
    requires
        0 <= y < height,
        0 <= x < row_bytes,
        0 <= row_pitch,
    ensures
        0 <= y * row_bytes + x < height * row_bytes,
        (y * row_bytes + x) / row_bytes == y,
        (y * row_bytes + x) % row_bytes == x,
        0 <= y * row_pitch + x <= (height - 1) * row_pitch + row_bytes - 1,
        (y + 1) * row_bytes == y * row_bytes + row_bytes,
{
    assert(y * row_bytes + x < height * row_bytes) by (nonlinear_arith)
        requires
            0 <= y < height,
            0 <= x < row_bytes,
    ;
    assert(0 <= y * row_bytes) by (nonlinear_arith)
        requires
            0 <= y,
            0 <= row_bytes,
    ;
    assert(0 <= y * row_pitch <= (height - 1) * row_pitch) by (nonlinear_arith)
        requires
            0 <= y < height,
            0 <= row_pitch,
    ;
    assert((y + 1) * row_bytes == y * row_bytes + row_bytes) by (nonlinear_arith);
    vstd::arithmetic::div_mod::lemma_fundamental_div_mod_converse(y * row_bytes + x, row_bytes, y, x);
}

/// In the stripped rows, byte `x` of row `y` lies at `y * row_bytes + x` and is
/// byte `y * row_pitch + x` of the mapping: each row follows the one before
/// it without padding.
pub proof fn lemma_stripped_byte(
    mapped: Seq<u8>,
    row_pitch: nat,
    row_bytes: nat,
    height: nat,
    y: int,
    x: int,
)
    requires
        0 <= y < height,
        0 <= x < row_bytes,
    ensures
        spec_stripped(mapped, row_pitch, row_bytes, height).len() == height * row_bytes,
        0 <= y * row_bytes + x < height * row_bytes,
        spec_stripped(mapped, row_pitch, row_bytes, height)[y * row_bytes + x] == mapped[y
            * row_pitch + x],
{
    lemma_row_index(y, x, row_bytes as int, row_pitch as int, height as int);
}

/// Copy the rows of a mapped texture into `dest` without the padding between
/// them.
///
/// Copies `width * bytes_per_pixel` bytes of each of the `height` rows, row
/// `y` from offset `y * row_pitch` of the mapping to offset
/// `y * width * bytes_per_pixel` of `dest`, and returns the number of bytes
/// written. Fails, leaving `dest` untouched, when `dest` is shorter than the
/// frame, or when the mapping is too short to hold the rows.
pub fn strip_row_pitch(
    mapped: &[u8],
    row_pitch: usize,
    width: u32,
    height: u32,
    format: ColorPixelFormat,
    dest: &mut [u8],
) -> (written: Result<usize, CaptureError>)
    ensures
        final(dest)@.len() == old(dest)@.len(),
        // The call succeeds exactly when the destination holds the frame and
        // the mapping holds the rows.
        written is Ok <==> old(dest)@.len() >= spec_frame_bytes(
            width as nat,
            height as nat,
            format,
        ) && spec_mapping_holds(
            mapped@.len(),
            row_pitch as nat,
            spec_row_bytes(width as nat, format),
            height as nat,
        ),
        written == Err::<usize, CaptureError>(CaptureError::PoolTooSmall) <==> old(dest)@.len()
            < spec_frame_bytes(width as nat, height as nat, format),
        written == Err::<usize, CaptureError>(CaptureError::Platform) <==> old(dest)@.len()
            >= spec_frame_bytes(width as nat, height as nat, format) && !spec_mapping_holds(
            mapped@.len(),
            row_pitch as nat,
            spec_row_bytes(width as nat, format),
            height as nat,
        ),
        written is Err ==> final(dest)@ == old(dest)@,
        written matches Ok(n) ==> {
            &&& n == spec_frame_bytes(width as nat, height as nat, format)
            &&& final(dest)@.take(n as int) == spec_stripped(
                mapped@,
                row_pitch as nat,
                spec_row_bytes(width as nat, format),
                height as nat,
            )
            &&& final(dest)@.skip(n as int) == old(dest)@.skip(n as int)
        },
{
    let have: usize = dest.len();
    let mapped_len: usize = mapped.len();
    let total: usize = match frame_bytes(width, height, format) {
        Some(total) => total,
        None => {
            return Err(CaptureError::PoolTooSmall);
        },
    };
    if have < total {
        return Err(CaptureError::PoolTooSmall);
    }
    let bpp: usize = bytes_per_pixel(format);
    let rows: usize = height as usize;
    assert(width as nat * height as nat * spec_bytes_per_pixel(format) == (width as nat
        * spec_bytes_per_pixel(format)) * height as nat) by (nonlinear_arith);
    if rows == 0 || width == 0 {
        assert(total == 0) by (nonlinear_arith)
            requires
                total == (width as nat * spec_bytes_per_pixel(format)) * height as nat,
                height == 0 || width == 0,
        ;
        assert(dest@.take(0) =~= spec_stripped(
            mapped@,
            row_pitch as nat,
            spec_row_bytes(width as nat, format),
            height as nat,
        )) by {
            assert(height as nat * spec_row_bytes(width as nat, format) == 0) by (nonlinear_arith)
                requires
                    height == 0 || width == 0,
                    spec_row_bytes(width as nat, format) == width as nat * spec_bytes_per_pixel(
                        format,
                    ),
            ;
        }
        assert(spec_row_bytes(width as nat, format) == 0 || height == 0) by (nonlinear_arith)
            requires
                height == 0 || width == 0,
                spec_row_bytes(width as nat, format) == width as nat * spec_bytes_per_pixel(
                    format,
                ),
        ;
        return Ok(0);
    }
    assert(width as nat * spec_bytes_per_pixel(format) <= total) by (nonlinear_arith)
        requires
            total == (width as nat * spec_bytes_per_pixel(format)) * height as nat,
            height >= 1,
    ;
    let row_bytes: usize = width as usize * bpp;
    assert(row_bytes > 0) by (nonlinear_arith)
        requires
            row_bytes == width as nat * bpp as nat,
            width > 0,
            bpp >= 4,
    ;
    assert((rows - 1) * row_pitch <= 0xFFFF_FFFF * usize::MAX) by (nonlinear_arith)
        requires
            0 < rows <= 0xFFFF_FFFF,
            0 <= row_pitch <= usize::MAX,
    ;
    let span: u128 = (rows as u128 - 1) * (row_pitch as u128) + row_bytes as u128;
    if span > mapped_len as u128 {
        return Err(CaptureError::Platform);
    }
    assert(total == rows * row_bytes) by (nonlinear_arith)
        requires
            total == (width as nat * spec_bytes_per_pixel(format)) * height as nat,
            row_bytes == width as nat * spec_bytes_per_pixel(format),
            rows == height,
    ;
    let ghost before = dest@;
    let mut y: usize = 0;
    while y < rows
        invariant
            0 < rows == height,
            0 < row_bytes == spec_row_bytes(width as nat, format),
            total == rows * row_bytes,
            y <= rows,
            dest@.len() == before.len(),
            total <= dest@.len(),
            (rows - 1) * row_pitch + row_bytes <= mapped@.len() <= usize::MAX,
            forall|i: int|
                0 <= i < y * row_bytes ==> #[trigger] dest@[i] == mapped@[(i / row_bytes as int)
                    * row_pitch + i % (row_bytes as int)],
            forall|i: int| y * row_bytes <= i < dest@.len() ==> dest@[i] == before[i],
        decreases rows - y,
    {
        let mut x: usize = 0;
        proof {
            lemma_row_index(y as int, 0, row_bytes as int, row_pitch as int, rows as int);
        }
        let src_row: usize = y * row_pitch;
        let dst_row: usize = y * row_bytes;
        while x < row_bytes
            invariant
                0 < rows == height,
                0 < row_bytes,
                total == rows * row_bytes,
                y < rows,
                x <= row_bytes,
                src_row == y * row_pitch,
                dst_row == y * row_bytes,
                dest@.len() == before.len(),
                total <= dest@.len(),
                (rows - 1) * row_pitch + row_bytes <= mapped@.len() <= usize::MAX,
                forall|i: int|
                    0 <= i < y * row_bytes + x ==> #[trigger] dest@[i] == mapped@[(i
                        / row_bytes as int) * row_pitch + i % (row_bytes as int)],
                forall|i: int| y * row_bytes + x <= i < dest@.len() ==> dest@[i] == before[i],
            decreases row_bytes - x,
        {
            proof {
                lemma_row_index(y as int, x as int, row_bytes as int, row_pitch as int, rows as int);
            }
            let byte: u8 = mapped[src_row + x];
            dest[dst_row + x] = byte;
            x += 1;
        }
        proof {
            lemma_row_index(y as int, 0, row_bytes as int, row_pitch as int, rows as int);
        }
        y += 1;
    }
    proof {
        assert(dest@.take(total as int) =~= spec_stripped(
            mapped@,
            row_pitch as nat,
            row_bytes as nat,
            height as nat,
        ));
        assert(dest@.skip(total as int) =~= before.skip(total as int));
    }
    Ok(total)
}

} // verus!
