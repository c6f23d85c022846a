//! What the capture pipeline asks of the platform, and what it hears back.
//!
//! The pipeline itself never touches the platform. It hands out an `Action`,
//! the caller performs it and reports the outcome as an `Event`, and the
//! pipeline decides what comes next.

use vstd::prelude::*;

use crate::color::ColorPixelFormat;
use crate::error::CaptureError;
use crate::geometry::{ClientBox, WindowProbe};

verus! {

/// The two ways to ask for a frame.
#[derive(Debug, Clone, Copy, PartialEq, Eq, Structural)]
pub enum Mode {
    /// A frame produced after the call began.
    Capture,
    /// The latest frame available.
    Grab,
}

/// The two places in which the caller keeps a delivered frame.
#[derive(Debug, Clone, Copy, PartialEq, Eq, Structural)]
pub enum Slot {
    /// The last frame found when the backlog was drained.
    Kept,
    /// The frame that arrived last.
    Current,
}

/// The attempts a call goes through to get a frame.
#[derive(Debug, Clone, Copy, PartialEq, Eq, Structural)]
pub enum Stage {
    /// After a resize seen by a grab: wait briefly for a fresh frame.
    ForceFresh,
    /// Before any frame was delivered: wait long for the first frame.
    First,
    /// Use the last frame of the backlog (grab).
    Latest,
    /// Wait briefly for a fresh frame.
    Fresh,
    /// Use the last frame of the backlog after no fresh one came (capture).
    Fallback,
    /// Nothing else is left: wait long for a frame or fail.
    Blocking,
}

/// Size, format code and time of a delivered frame's texture.
#[derive(Debug, Clone, Copy, PartialEq, Eq, Structural)]
pub struct TextureDesc {
    pub width: u32,
    pub height: u32,
    /// The platform's code of the texture's pixel format.
    pub format_code: u32,
    /// Time of the frame since boot, in units of 100 nanoseconds.
    pub timestamp: i64,
}

/// A frame on its way through the color and readback stages.
#[derive(Debug, Clone, Copy, PartialEq, Eq, Structural)]
pub struct RawFrameInfo {
    pub width: u32,
    pub height: u32,
    pub timestamp: i64,
    pub format: ColorPixelFormat,
}

/// What the caller saw of the target's size when asked to inspect a frame.
#[derive(Debug, Clone, Copy, PartialEq, Eq)]
pub enum Observation {
    /// For a window target: the answers of the window system.
    Window(WindowProbe),
    /// For a monitor target: the content size of the frame.
    Monitor { width: u32, height: u32 },
    /// For a monitor target: the frame would not tell its content size.
    Unavailable,
}

/// The next thing the caller has to do.
#[derive(Debug, Clone, Copy, PartialEq, Eq)]
pub enum Action {
    /// Ask the frame pool for its next frame, without blocking, and keep it
    /// in the slot `into`. Answer with `Polled`.
    Poll { into: Slot },
    /// Block until a frame is signalled, `timeout_ms` at most. Answer with
    /// `Waited`.
    Wait { timeout_ms: u32 },
    /// Look at the size of the target of the frame in `slot`. Answer with
    /// `Inspected`.
    Inspect { slot: Slot },
    /// Rebuild the frame pool at the new size. Answer with `Recreated`.
    Recreate { width: u32, height: u32 },
    /// Unwrap the texture of the frame in `slot`. Answer with `Described`.
    Describe { slot: Slot },
    /// Copy `region` of the texture in hand into the crop texture, building
    /// that texture anew if `rebuild` says so, and go on with the crop
    /// texture. Answer with `Cropped`.
    Crop { region: ClientBox, format: ColorPixelFormat, rebuild: bool },
    /// Run the tone-map pass on the texture in hand and go on with its output.
    /// Answer with `ToneMapped`.
    ToneMap { width: u32, height: u32 },
    /// Rent a buffer, from a new pool of `pool_frame_bytes` if `new_pool` says
    /// so, read the texture in hand back into it, and keep the frame as the
    /// cached one. Answer with `ReadBack`.
    Readback { frame: RawFrameInfo, pool_frame_bytes: usize, new_pool: bool },
    /// The call is over: hand out the frame just read back.
    DeliverFresh,
    /// The call is over: hand out the cached frame once more.
    DeliverCached,
    /// The call is over: it failed.
    Fail(CaptureError),
}

/// What came of the last action.
#[derive(Debug, Clone, Copy, PartialEq, Eq)]
pub enum Event {
    /// The pool had a frame (`got`) or was empty.
    Polled { got: bool },
    /// The wait ended by a signal (`signaled`) or ran out.
    Waited { signaled: bool },
    /// The target's size as seen now.
    Inspected(Observation),
    /// The frame pool was rebuilt (`ok`) or could not be.
    Recreated { ok: bool },
    /// The texture of the frame, or `None` if it could not be had.
    Described(Option<TextureDesc>),
    /// The client area was copied (`ok`) or the crop texture failed.
    Cropped { ok: bool },
    /// The tone-map pass ran (`ok`) or failed.
    ToneMapped { ok: bool },
    /// The readback succeeded (`None`) or failed with an error.
    ReadBack(Option<CaptureError>),
}

impl Action {
    /// Whether the action ends the call.
    pub open spec fn is_final(self) -> bool {
        self is DeliverFresh || self is DeliverCached || self is Fail
    }
}

} // verus!
