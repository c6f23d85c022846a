//! The frame handed to the caller, and the bytes it owns.

use vstd::prelude::*;

use crate::color::{
    bytes_per_pixel, frame_bytes, spec_bytes_per_pixel, spec_frame_bytes, ColorPixelFormat,
};
use crate::pool::PooledBuffer;

verus! {

/// Pixel bytes of a published frame, with the index of the pool group that
/// lent them. When the last owner lets go of the frame, the bytes go back to
/// that group.
pub struct SharedFrameData {
    bytes: Vec<u8>,
    group_idx: usize,
}

/// Single frame capture result.
pub struct CapturedFrame {
    /// Pixel data, tightly packed: row-major, no padding between rows.
    pub data: SharedFrameData,
    /// Frame width in pixels.
    pub width: u32,
    /// Frame height in pixels.
    pub height: u32,
    /// Time of the frame since system boot, in units of 100 nanoseconds.
    pub timestamp: i64,
    /// Pixel format of `data`.
    pub format: ColorPixelFormat,
}

impl View for SharedFrameData {
    type V = Seq<u8>;

    closed spec fn view(&self) -> Seq<u8> {
        self.bytes@
    }
}

impl SharedFrameData {
    /// Index of the pool group that lent the bytes.
    pub closed spec fn spec_group_idx(&self) -> usize {
        self.group_idx
    }

    /// Wrap bytes rented from group `group_idx` of a pool.
    pub fn new(bytes: Vec<u8>, group_idx: usize) -> (data: SharedFrameData)
        ensures
            data@ == bytes@,
            data.spec_group_idx() == group_idx,
    {
        SharedFrameData { bytes, group_idx }
    }

    /// The pixel bytes.
    pub fn as_slice(&self) -> (bytes: &[u8])
        ensures
            bytes@ == self@,
    {
        self.bytes.as_slice()
    }

    /// Number of pixel bytes.
    pub fn len(&self) -> (n: usize)
        ensures
            n == self@.len(),
    {
        self.bytes.len()
    }

    /// Whether there are no pixel bytes.
    pub fn is_empty(&self) -> (empty: bool)
        ensures
            empty == (self@.len() == 0),
    {
        self.bytes.len() == 0
    }

    /// Index of the pool group that lent the bytes.
    pub fn group_idx(&self) -> (idx: usize)
        ensures
            idx == self.spec_group_idx(),
    {
        self.group_idx
    }

    /// Give up the frame data: the bytes and the group to release them to.
    pub fn into_parts(self) -> (parts: (Vec<u8>, usize))
        ensures
            parts.0@ == self@,
            parts.1 == self.spec_group_idx(),
    {
        (self.bytes, self.group_idx)
    }
}

impl CapturedFrame {
    /// A frame holds exactly as many bytes as its pixels take.
    pub open spec fn wf(&self) -> bool {
        self.data@.len() == spec_frame_bytes(self.width as nat, self.height as nat, self.format)
    }

    /// Bytes per pixel of this frame's format.
    pub fn bytes_per_pixel(&self) -> (bpp: usize)
        ensures
            bpp == spec_bytes_per_pixel(self.format),
    {
        bytes_per_pixel(self.format)
    }
}

/// A frame holds four bytes for each pixel if it is 8 bit, eight if it is half
/// float, and nothing else.
pub proof fn lemma_frame_length(frame: &CapturedFrame)
    requires
        frame.wf(),
    ensures
        frame.format == ColorPixelFormat::Bgra8 ==> frame.data@.len() == 4 * (frame.width
            * frame.height),
        frame.format == ColorPixelFormat::Rgba16f ==> frame.data@.len() == 8 * (frame.width
            * frame.height),
{
    assert(frame.width as nat * frame.height as nat * spec_bytes_per_pixel(frame.format)
        == spec_bytes_per_pixel(frame.format) * (frame.width * frame.height)) by (nonlinear_arith);
}

/// Turn a rented buffer that a readback has filled into a frame.
///
/// The buffer is cut to the `written` bytes. The frame is made only if that
/// is exactly what `width` x `height` pixels of `format` take and the buffer
/// holds as much; else the buffer comes back as it was, to be released.
pub fn seal_frame(
    buffer: PooledBuffer,
    written: usize,
    width: u32,
    height: u32,
    timestamp: i64,
    format: ColorPixelFormat,
) -> (sealed: Result<CapturedFrame, PooledBuffer>)
    ensures
        sealed is Ok <==> written == spec_frame_bytes(width as nat, height as nat, format)
            && written <= buffer@.len(),
        sealed matches Ok(frame) ==> {
            &&& frame.wf()
            &&& frame.data@ == buffer@.take(written as int)
            &&& frame.data.spec_group_idx() == buffer.group_idx()
            &&& frame.width == width
            &&& frame.height == height
            &&& frame.timestamp == timestamp
            &&& frame.format == format
        },
        sealed matches Err(rejected) ==> rejected == buffer,
{
    let fits: bool = match frame_bytes(width, height, format) {
        Some(n) => n == written && written <= buffer.as_slice().len(),
        None => false,
    };
    if !fits {
        return Err(buffer);
    }
    let (mut bytes, group_idx) = buffer.into_parts();
    bytes.truncate(written);
    assert(bytes@ =~= buffer@.take(written as int));
    let data = SharedFrameData::new(bytes, group_idx);
    Ok(CapturedFrame { data, width, height, timestamp, format })
}

} // verus!
