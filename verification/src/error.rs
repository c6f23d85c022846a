//! The ways a capture call can fail.

use vstd::prelude::*;

verus! {

/// Kind of failure of a capture call.
#[derive(Debug, Clone, Copy, PartialEq, Eq, Structural)]
pub enum CaptureError {
    /// No frame arrived in time, or the target kept changing its size.
    Timeout,
    /// The texture's pixel format is neither `Bgra8` nor `Rgba16f`.
    UnsupportedFormat,
    /// The destination buffer cannot hold the frame.
    PoolTooSmall,
    /// The platform refused a call or answered with something unusable.
    Platform,
}

} // verus!
