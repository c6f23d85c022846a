//! The capture pipeline: which frame a call delivers, and by which steps.
//!
//! A call of `capture` or `grab` is a dialogue. The pipeline answers each
//! event with the next action, until an action ends the call. Between calls it
//! remembers whether a frame was ever delivered, whether one is cached, the
//! size of the frame pool, and whether a grab has seen a resize.
//!
//! `capture` wants a frame made after the call began: it drains the backlog,
//! waits briefly for a fresh frame, and falls back to the last backlog frame,
//! then to the cached frame, then to a long wait. `grab` wants the latest frame
//! at hand: it takes the last backlog frame if there is one and waits only if
//! there is none. Before a frame is processed its size is checked against the
//! frame pool; on a mismatch the pool is rebuilt and the next frame discarded,
//! `RESIZE_RETRY_LIMIT` times at most.

use vstd::prelude::*;

use crate::color::{
    frame_bytes, requires_processing, spec_frame_bytes, spec_requires_processing, ColorPixelFormat,
};
use crate::error::CaptureError;
use crate::geometry::{spec_window_geometry, window_geometry, ClientBox, WindowGeometry};
use crate::pipeline_laws::{lemma_advance_sound, step_sound};
use crate::pipeline_types::{
    Action, Event, Mode, Observation, RawFrameInfo, Slot, Stage, TextureDesc,
};
use crate::policy::{pool_format, spec_pool_format, CapturePolicy};
use crate::target::CaptureTarget;
use crate::texture::{color_format, spec_color_format, TextureCache, TextureShape};

verus! {

/// Longest wait for a frame when nothing else can be delivered, in
/// milliseconds.
pub const FIRST_FRAME_TIMEOUT_MS: u32 = 1000;

/// Wait for a fresh frame before a fallback is used, in milliseconds: about
/// three refresh intervals.
pub const FRESH_FRAME_TIMEOUT_MS: u32 = 50;

/// How often one frame's resolution may begin anew because the size changed.
pub const RESIZE_RETRY_LIMIT: u8 = 3;

/// Nanoseconds in a millisecond.
pub const NANOS_PER_MILLI: u64 = 1_000_000;

/// Where a call stands: which answer the pipeline is waiting for.
#[derive(Debug, Clone, Copy, PartialEq, Eq)]
pub enum Phase {
    /// No call is under way.
    Idle,
    /// Draining the backlog; waits for `Polled`.
    Draining,
    /// Waiting for a frame until `deadline`; waits for `Polled`.
    Polling { deadline: u128, resolving: bool },
    /// Waiting for a frame until `deadline`; waits for `Waited`.
    Sleeping { deadline: u128, resolving: bool },
    /// Checking the active frame's size; waits for `Inspected`.
    Inspecting,
    /// Rebuilding the frame pool; waits for `Recreated`.
    Recreating { width: u32, height: u32 },
    /// Unwrapping the active frame; waits for `Described`.
    Describing { crop: Option<ClientBox> },
    /// Cutting out the client area; waits for `Cropped`.
    Cropping { frame: RawFrameInfo },
    /// Tone-mapping; waits for `ToneMapped`.
    ToneMapping { frame: RawFrameInfo },
    /// Reading back; waits for `ReadBack`.
    ReadingBack,
}

/// The capture pipeline's memory.
#[derive(Debug, Clone, Copy, PartialEq, Eq)]
pub struct CapturePipeline {
    /// The caller's intent; never changes.
    pub policy: CapturePolicy,
    /// Whether the target's display had HDR on when the pipeline was made.
    pub target_hdr: bool,
    /// Whether the target is a window (else a monitor).
    pub window_target: bool,
    /// Whether window frames are cut down to the client area.
    pub headless: bool,
    /// Current size of the frame pool.
    pub pool_width: u32,
    pub pool_height: u32,
    /// Buffer size of the current output pool.
    pub output_frame_bytes: usize,
    /// No frame was delivered yet.
    pub first_call: bool,
    /// A delivered frame is cached.
    pub has_cache: bool,
    /// A grab saw a resize: the next grab waits for a fresh frame first.
    pub force_fresh: bool,
    /// Shape of the crop texture at hand.
    pub crop_cache: TextureCache,
    /// Mode of the call under way.
    pub mode: Mode,
    /// Attempt of the call under way.
    pub stage: Stage,
    /// The drain of this call found a frame.
    pub kept: bool,
    /// Slot of the frame being resolved.
    pub active: Slot,
    /// Resolution rounds left for the frame being resolved.
    pub tries_left: u8,
    /// The next frame after a rebuild of the pool is to be discarded.
    pub drop_next: bool,
    pub phase: Phase,
}

/// How long a stage waits for its frame.
pub open spec fn spec_acquire_timeout_ms(stage: Stage) -> u32 {
    if stage == Stage::First || stage == Stage::Blocking {
        FIRST_FRAME_TIMEOUT_MS
    } else {
        FRESH_FRAME_TIMEOUT_MS
    }
}

/// How long a stage waits for the frame that follows a resize.
pub open spec fn spec_resolve_timeout_ms(stage: Stage) -> u32 {
    if stage == Stage::Blocking {
        FIRST_FRAME_TIMEOUT_MS
    } else {
        FRESH_FRAME_TIMEOUT_MS
    }
}

/// Milliseconds to wait when `remaining` nanoseconds are left: the whole
/// milliseconds, as far as the number fits.
pub open spec fn spec_wait_ms(remaining: int) -> u32 {
    if remaining / (NANOS_PER_MILLI as int) > u32::MAX {
        u32::MAX
    } else {
        (remaining / (NANOS_PER_MILLI as int)) as u32
    }
}

/// The size to rebuild the frame pool at, if what was observed differs from
/// the pool's size.
///
/// A window counts by the frame size of its geometry, and not at all while it
/// has none. A monitor counts by the content size of the frame, unless that is
/// zero.
pub open spec fn spec_resize_target(
    window_target: bool,
    observation: Observation,
    pool_width: u32,
    pool_height: u32,
) -> Option<(u32, u32)> {
    if window_target {
        match spec_geometry(observation, pool_width, pool_height) {
            Some(geo) => if geo.frame_width != pool_width || geo.frame_height != pool_height {
                Some((geo.frame_width, geo.frame_height))
            } else {
                None
            },
            None => None,
        }
    } else {
        match observation {
            Observation::Monitor { width, height } => if width == 0 || height == 0 {
                None
            } else if width != pool_width || height != pool_height {
                Some((width, height))
            } else {
                None
            },
            _ => None,
        }
    }
}

/// The window geometry that an observation amounts to.
pub open spec fn spec_geometry(observation: Observation, pool_width: u32, pool_height: u32) -> Option<
    WindowGeometry,
> {
    match observation {
        Observation::Window(probe) => spec_window_geometry(probe, pool_width, pool_height),
        _ => None,
    }
}

/// Whether `region` is a non-empty part of a `width` x `height` texture.
pub open spec fn spec_region_inside(region: ClientBox, width: u32, height: u32) -> bool {
    region.fits(width, height)
}

impl CapturePipeline {
    /// The pipeline of a new session.
    pub open spec fn spec_new(
        policy: CapturePolicy,
        target_hdr: bool,
        target: CaptureTarget,
        headless: bool,
        pool_width: u32,
        pool_height: u32,
    ) -> CapturePipeline {
        CapturePipeline {
            policy,
            target_hdr,
            window_target: target is Window,
            headless,
            pool_width,
            pool_height,
            output_frame_bytes: spec_frame_bytes(
                pool_width as nat,
                pool_height as nat,
                spec_pool_format(policy, false),
            ) as usize,
            first_call: true,
            has_cache: false,
            force_fresh: false,
            crop_cache: TextureCache { shape: None },
            mode: Mode::Capture,
            stage: Stage::First,
            kept: false,
            active: Slot::Current,
            tries_left: 0,
            drop_next: false,
            phase: Phase::Idle,
        }
    }

    /// Whether `event` answers the action that the pipeline gave last.
    pub open spec fn accepts(self, event: Event) -> bool {
        match self.phase {
            Phase::Idle => false,
            Phase::Draining => event is Polled,
            Phase::Polling { .. } => event is Polled,
            Phase::Sleeping { .. } => event is Waited,
            Phase::Inspecting => event matches Event::Inspected(observation) && (
            if self.window_target {
                observation is Window
            } else {
                !(observation is Window)
            }),
            Phase::Recreating { .. } => event is Recreated,
            Phase::Describing { .. } => event is Described,
            Phase::Cropping { .. } => event is Cropped,
            Phase::ToneMapping { .. } => event is ToneMapped,
            Phase::ReadingBack => event is ReadBack,
        }
    }

    /// The call ends with `action`.
    pub open spec fn spec_finish(self, action: Action) -> (CapturePipeline, Action) {
        (CapturePipeline { phase: Phase::Idle, ..self }, action)
    }

    /// Start to wait for a frame: for the stage's own frame, or, while
    /// `resolving`, for the frame that follows a resize.
    pub open spec fn spec_begin_wait(self, resolving: bool, now_ns: u64) -> (
        CapturePipeline,
        Action,
    ) {
        let timeout_ms = if resolving {
            spec_resolve_timeout_ms(self.stage)
        } else {
            spec_acquire_timeout_ms(self.stage)
        };
        (
            CapturePipeline {
                phase: Phase::Polling {
                    deadline: (now_ns + timeout_ms * NANOS_PER_MILLI) as u128,
                    resolving,
                },
                ..self
            },
            Action::Poll { into: Slot::Current },
        )
    }

    /// Start to resolve the frame in `slot`.
    pub open spec fn spec_begin_resolve(self, slot: Slot) -> (CapturePipeline, Action) {
        (
            CapturePipeline {
                active: slot,
                tries_left: RESIZE_RETRY_LIMIT,
                drop_next: false,
                phase: Phase::Inspecting,
                ..self
            },
            Action::Inspect { slot },
        )
    }

    /// Start to drain the backlog.
    pub open spec fn spec_begin_drain(self) -> (CapturePipeline, Action) {
        (
            CapturePipeline { kept: false, phase: Phase::Draining, ..self },
            Action::Poll { into: Slot::Kept },
        )
    }

    /// Enter `stage`: the stages that use the backlog frame resolve it, the
    /// others wait for a frame.
    pub open spec fn spec_enter(self, stage: Stage, now_ns: u64) -> (CapturePipeline, Action) {
        let entered = CapturePipeline { stage, ..self };
        if stage == Stage::Latest || stage == Stage::Fallback {
            entered.spec_begin_resolve(Slot::Kept)
        } else {
            entered.spec_begin_wait(false, now_ns)
        }
    }

    /// Deliver the cached frame, or wait long if there is none.
    pub open spec fn spec_cache_or_block(self, now_ns: u64) -> (CapturePipeline, Action) {
        if self.has_cache {
            self.spec_finish(Action::DeliverCached)
        } else {
            self.spec_enter(Stage::Blocking, now_ns)
        }
    }

    /// What follows a stage that brought no frame.
    pub open spec fn spec_after_nothing(self, now_ns: u64) -> (CapturePipeline, Action) {
        match self.stage {
            Stage::ForceFresh => if self.has_cache {
                self.spec_finish(Action::DeliverCached)
            } else if self.first_call {
                self.spec_enter(Stage::First, now_ns)
            } else {
                self.spec_begin_drain()
            },
            Stage::First => self.spec_enter(Stage::Blocking, now_ns),
            Stage::Latest => self.spec_enter(Stage::Fresh, now_ns),
            Stage::Fresh => if self.mode == Mode::Capture && self.kept {
                self.spec_enter(Stage::Fallback, now_ns)
            } else {
                self.spec_cache_or_block(now_ns)
            },
            Stage::Fallback => self.spec_cache_or_block(now_ns),
            Stage::Blocking => self.spec_finish(Action::Fail(CaptureError::Timeout)),
        }
    }

    /// What follows a frame that could not be resolved: the cached frame if
    /// there is one, except in the last stage; else the next stage.
    pub open spec fn spec_unresolved(self, now_ns: u64) -> (CapturePipeline, Action) {
        if self.stage != Stage::Blocking && self.has_cache {
            self.spec_finish(Action::DeliverCached)
        } else {
            self.spec_after_nothing(now_ns)
        }
    }

    /// What follows a wait that ran out.
    pub open spec fn spec_timed_out(self, resolving: bool, now_ns: u64) -> (
        CapturePipeline,
        Action,
    ) {
        if resolving {
            self.spec_unresolved(now_ns)
        } else if self.stage == Stage::First || self.stage == Stage::Blocking {
            self.spec_finish(Action::Fail(CaptureError::Timeout))
        } else {
            self.spec_after_nothing(now_ns)
        }
    }

    /// What follows a frame that arrived in a wait. The stage's own frame is
    /// resolved. A frame that follows a resize uses up a round: it is
    /// inspected if a round is left, else the frame counts as unresolved.
    pub open spec fn spec_frame_arrived(self, resolving: bool, now_ns: u64) -> (
        CapturePipeline,
        Action,
    ) {
        if !resolving {
            self.spec_begin_resolve(Slot::Current)
        } else if self.tries_left <= 1 {
            CapturePipeline { active: Slot::Current, tries_left: 0, ..self }.spec_unresolved(now_ns)
        } else {
            (
                CapturePipeline {
                    active: Slot::Current,
                    tries_left: (self.tries_left - 1) as u8,
                    phase: Phase::Inspecting,
                    ..self
                },
                Action::Inspect { slot: Slot::Current },
            )
        }
    }

    /// Read `frame` back, from a larger pool if the current one is too small
    /// for it.
    pub open spec fn spec_read_back(self, frame: RawFrameInfo) -> (CapturePipeline, Action) {
        let needed = spec_frame_bytes(frame.width as nat, frame.height as nat, frame.format);
        if needed > usize::MAX {
            self.spec_finish(Action::Fail(CaptureError::PoolTooSmall))
        } else {
            let grow = needed > self.output_frame_bytes;
            let size = if grow {
                needed as usize
            } else {
                self.output_frame_bytes
            };
            (
                CapturePipeline { output_frame_bytes: size, phase: Phase::ReadingBack, ..self },
                Action::Readback { frame, pool_frame_bytes: size, new_pool: grow },
            )
        }
    }

    /// Send `frame` through the color stage: tone-map it if the policy asks
    /// for that, else read it back as it is.
    pub open spec fn spec_process(self, frame: RawFrameInfo) -> (CapturePipeline, Action) {
        if spec_requires_processing(frame.format, self.policy) {
            (
                CapturePipeline { phase: Phase::ToneMapping { frame }, ..self },
                Action::ToneMap { width: frame.width, height: frame.height },
            )
        } else {
            self.spec_read_back(frame)
        }
    }

    /// What follows an inspection of the active frame.
    pub open spec fn spec_inspected(self, observation: Observation, now_ns: u64) -> (
        CapturePipeline,
        Action,
    ) {
        if !self.window_target && observation is Unavailable {
            self.spec_finish(Action::Fail(CaptureError::Platform))
        } else {
            match spec_resize_target(
                self.window_target,
                observation,
                self.pool_width,
                self.pool_height,
            ) {
                Some((width, height)) => (
                    CapturePipeline {
                        force_fresh: self.force_fresh || self.mode == Mode::Grab,
                        phase: Phase::Recreating { width, height },
                        ..self
                    },
                    Action::Recreate { width, height },
                ),
                None => if self.drop_next {
                    CapturePipeline { drop_next: false, ..self }.spec_begin_wait(true, now_ns)
                } else {
                    let crop = if self.headless {
                        match spec_geometry(observation, self.pool_width, self.pool_height) {
                            Some(geo) => geo.client_box,
                            None => None,
                        }
                    } else {
                        None
                    };
                    (
                        CapturePipeline { phase: Phase::Describing { crop }, ..self },
                        Action::Describe { slot: self.active },
                    )
                },
            }
        }
    }

    /// What follows the unwrapping of the active frame.
    pub open spec fn spec_described(self, crop: Option<ClientBox>, desc: Option<TextureDesc>) -> (
        CapturePipeline,
        Action,
    ) {
        match desc {
            None => self.spec_finish(Action::Fail(CaptureError::Platform)),
            Some(d) => match spec_color_format(d.format_code) {
                None => self.spec_finish(Action::Fail(CaptureError::UnsupportedFormat)),
                Some(format) => if crop is Some && spec_region_inside(crop->0, d.width, d.height) {
                    let region = crop->0;
                    let frame = RawFrameInfo {
                        width: (region.right - region.left) as u32,
                        height: (region.bottom - region.top) as u32,
                        timestamp: d.timestamp,
                        format,
                    };
                    (
                        CapturePipeline { phase: Phase::Cropping { frame }, ..self },
                        Action::Crop {
                            region,
                            format,
                            rebuild: !self.crop_cache.spec_holds(
                                TextureShape { width: frame.width, height: frame.height, format },
                            ),
                        },
                    )
                } else {
                    self.spec_process(
                        RawFrameInfo {
                            width: d.width,
                            height: d.height,
                            timestamp: d.timestamp,
                            format,
                        },
                    )
                },
            },
        }
    }

    /// The pipeline and its first action when a call in `mode` begins.
    pub open spec fn spec_start(self, mode: Mode, now_ns: u64) -> (CapturePipeline, Action) {
        let called = CapturePipeline { mode, kept: false, ..self };
        if mode == Mode::Grab && self.force_fresh {
            CapturePipeline { force_fresh: false, ..called }.spec_enter(Stage::ForceFresh, now_ns)
        } else if self.first_call {
            called.spec_enter(Stage::First, now_ns)
        } else {
            called.spec_begin_drain()
        }
    }

    /// The pipeline and its next action after `event`.
    pub open spec fn spec_advance(self, event: Event, now_ns: u64) -> (CapturePipeline, Action) {
        match (self.phase, event) {
            (Phase::Draining, Event::Polled { got }) => if got {
                (CapturePipeline { kept: true, ..self }, Action::Poll { into: Slot::Kept })
            } else if self.mode == Mode::Grab && self.kept {
                self.spec_enter(Stage::Latest, now_ns)
            } else {
                self.spec_enter(Stage::Fresh, now_ns)
            },
            (Phase::Polling { deadline, resolving }, Event::Polled { got }) => if got {
                self.spec_frame_arrived(resolving, now_ns)
            } else if deadline <= now_ns {
                self.spec_timed_out(resolving, now_ns)
            } else {
                (
                    CapturePipeline { phase: Phase::Sleeping { deadline, resolving }, ..self },
                    Action::Wait { timeout_ms: spec_wait_ms(deadline - now_ns) },
                )
            },
            (Phase::Sleeping { deadline, resolving }, Event::Waited { signaled }) => if signaled {
                (
                    CapturePipeline { phase: Phase::Polling { deadline, resolving }, ..self },
                    Action::Poll { into: Slot::Current },
                )
            } else {
                self.spec_timed_out(resolving, now_ns)
            },
            (Phase::Inspecting, Event::Inspected(observation)) => self.spec_inspected(
                observation,
                now_ns,
            ),
            (Phase::Recreating { width, height }, Event::Recreated { ok }) => if ok {
                CapturePipeline {
                    pool_width: width,
                    pool_height: height,
                    drop_next: true,
                    ..self
                }.spec_begin_wait(true, now_ns)
            } else {
                self.spec_finish(Action::Fail(CaptureError::Platform))
            },
            (Phase::Describing { crop }, Event::Described(desc)) => self.spec_described(crop, desc),
            (Phase::Cropping { frame }, Event::Cropped { ok }) => if ok {
                CapturePipeline {
                    crop_cache: TextureCache {
                        shape: Some(
                            TextureShape {
                                width: frame.width,
                                height: frame.height,
                                format: frame.format,
                            },
                        ),
                    },
                    ..self
                }.spec_process(frame)
            } else {
                self.spec_finish(Action::Fail(CaptureError::Platform))
            },
            (Phase::ToneMapping { frame }, Event::ToneMapped { ok }) => if ok {
                self.spec_read_back(RawFrameInfo { format: ColorPixelFormat::Bgra8, ..frame })
            } else {
                self.spec_finish(Action::Fail(CaptureError::Platform))
            },
            (Phase::ReadingBack, Event::ReadBack(failure)) => match failure {
                Some(error) => self.spec_finish(Action::Fail(error)),
                None => CapturePipeline {
                    has_cache: true,
                    first_call: false,
                    ..self
                }.spec_finish(Action::DeliverFresh),
            },
            _ => self.spec_finish(Action::Fail(CaptureError::Platform)),
        }
    }
}

fn acquire_timeout_ms(stage: Stage) -> (ms: u32)
    ensures
        ms == spec_acquire_timeout_ms(stage),
{
    match stage {
        Stage::First | Stage::Blocking => FIRST_FRAME_TIMEOUT_MS,
        _ => FRESH_FRAME_TIMEOUT_MS,
    }
}

fn resolve_timeout_ms(stage: Stage) -> (ms: u32)
    ensures
        ms == spec_resolve_timeout_ms(stage),
{
    match stage {
        Stage::Blocking => FIRST_FRAME_TIMEOUT_MS,
        _ => FRESH_FRAME_TIMEOUT_MS,
    }
}

fn wait_ms(remaining: u128) -> (ms: u32)
    ensures
        ms == spec_wait_ms(remaining as int),
{
    let whole: u128 = remaining / (NANOS_PER_MILLI as u128);
    if whole > u32::MAX as u128 {
        u32::MAX
    } else {
        whole as u32
    }
}

fn geometry_of(observation: &Observation, pool_width: u32, pool_height: u32) -> (geometry: Option<
    WindowGeometry,
>)
    ensures
        geometry == spec_geometry(*observation, pool_width, pool_height),
{
    match observation {
        Observation::Window(probe) => window_geometry(probe, pool_width, pool_height),
        _ => None,
    }
}

/// Decide whether the frame pool must be rebuilt, and at which size.
pub fn resize_target(
    window_target: bool,
    observation: &Observation,
    pool_width: u32,
    pool_height: u32,
) -> (target: Option<(u32, u32)>)
    ensures
        target == spec_resize_target(window_target, *observation, pool_width, pool_height),
        target matches Some((w, h)) ==> w != pool_width || h != pool_height,
{
    if window_target {
        match geometry_of(observation, pool_width, pool_height) {
            Some(geo) => {
                if geo.frame_width != pool_width || geo.frame_height != pool_height {
                    Some((geo.frame_width, geo.frame_height))
                } else {
                    None
                }
            },
            None => None,
        }
    } else {
        match observation {
            Observation::Monitor { width, height } => {
                if *width == 0 || *height == 0 {
                    None
                } else if *width != pool_width || *height != pool_height {
                    Some((*width, *height))
                } else {
                    None
                }
            },
            _ => None,
        }
    }
}

fn region_inside(region: &ClientBox, width: u32, height: u32) -> (inside: bool)
    ensures
        inside == spec_region_inside(*region, width, height),
{
    region.left < region.right && region.right <= width && region.top < region.bottom
        && region.bottom <= height
}

impl CapturePipeline {
    /// The pipeline of a new session on `target`, with a frame pool of
    /// `pool_width` x `pool_height`.
    ///
    /// No frame was delivered yet and none is cached. The output buffers are
    /// sized for a frame as large as the pool in the format the policy
    /// delivers: half floats under `Hdr`, 8 bit else.
    pub fn new(
        policy: CapturePolicy,
        target_hdr: bool,
        target: CaptureTarget,
        headless: bool,
        pool_width: u32,
        pool_height: u32,
    ) -> (pipeline: CapturePipeline)
        requires
            spec_frame_bytes(pool_width as nat, pool_height as nat, spec_pool_format(policy, false))
                <= usize::MAX,
        ensures
            pipeline == CapturePipeline::spec_new(
                policy,
                target_hdr,
                target,
                headless,
                pool_width,
                pool_height,
            ),
            pipeline.phase is Idle,
            pipeline.first_call && !pipeline.has_cache && !pipeline.force_fresh,
    {
        let output_frame_bytes: usize = match frame_bytes(
            pool_width,
            pool_height,
            pool_format(policy, false),
        ) {
            Some(n) => n,
            None => 0,
        };
        CapturePipeline {
            policy,
            target_hdr,
            window_target: target.is_window(),
            headless,
            pool_width,
            pool_height,
            output_frame_bytes,
            first_call: true,
            has_cache: false,
            force_fresh: false,
            crop_cache: TextureCache::new(),
            mode: Mode::Capture,
            stage: Stage::First,
            kept: false,
            active: Slot::Current,
            tries_left: 0,
            drop_next: false,
            phase: Phase::Idle,
        }
    }

    /// Whether the target's display had HDR on when the pipeline was made.
    pub fn is_hdr(&self) -> (hdr: bool)
        ensures
            hdr == self.target_hdr,
    {
        self.target_hdr
    }

    /// Current size of the frame pool.
    pub fn pool_size(&self) -> (size: (u32, u32))
        ensures
            size == (self.pool_width, self.pool_height),
    {
        (self.pool_width, self.pool_height)
    }

    /// Whether no call is under way, so that one may begin.
    pub fn is_idle(&self) -> (idle: bool)
        ensures
            idle == (self.phase is Idle),
    {
        match self.phase {
            Phase::Idle => true,
            _ => false,
        }
    }

    /// Whether `event` answers the action that the pipeline gave last.
    pub fn expects(&self, event: &Event) -> (fits: bool)
        ensures
            fits == self.accepts(*event),
    {
        match (self.phase, event) {
            (Phase::Draining, Event::Polled { .. }) => true,
            (Phase::Polling { .. }, Event::Polled { .. }) => true,
            (Phase::Sleeping { .. }, Event::Waited { .. }) => true,
            (Phase::Inspecting, Event::Inspected(observation)) => match observation {
                Observation::Window(_) => self.window_target,
                _ => !self.window_target,
            },
            (Phase::Recreating { .. }, Event::Recreated { .. }) => true,
            (Phase::Describing { .. }, Event::Described(_)) => true,
            (Phase::Cropping { .. }, Event::Cropped { .. }) => true,
            (Phase::ToneMapping { .. }, Event::ToneMapped { .. }) => true,
            (Phase::ReadingBack, Event::ReadBack(_)) => true,
            _ => false,
        }
    }

    fn finish(self, action: Action) -> (next: (CapturePipeline, Action))
        ensures
            next == self.spec_finish(action),
    {
        (CapturePipeline { phase: Phase::Idle, ..self }, action)
    }

    fn begin_wait(self, resolving: bool, now_ns: u64) -> (next: (CapturePipeline, Action))
        ensures
            next == self.spec_begin_wait(resolving, now_ns),
    {
        let timeout_ms: u32 = if resolving {
            resolve_timeout_ms(self.stage)
        } else {
            acquire_timeout_ms(self.stage)
        };
        assert(timeout_ms * NANOS_PER_MILLI <= 1000 * NANOS_PER_MILLI) by (nonlinear_arith)
            requires
                timeout_ms <= 1000,
                NANOS_PER_MILLI == 1_000_000,
        ;
        let deadline: u128 = now_ns as u128 + (timeout_ms as u128) * (NANOS_PER_MILLI as u128);
        (
            CapturePipeline { phase: Phase::Polling { deadline, resolving }, ..self },
            Action::Poll { into: Slot::Current },
        )
    }

    fn begin_resolve(self, slot: Slot) -> (next: (CapturePipeline, Action))
        ensures
            next == self.spec_begin_resolve(slot),
    {
        (
            CapturePipeline {
                active: slot,
                tries_left: RESIZE_RETRY_LIMIT,
                drop_next: false,
                phase: Phase::Inspecting,
                ..self
            },
            Action::Inspect { slot },
        )
    }

    fn begin_drain(self) -> (next: (CapturePipeline, Action))
        ensures
            next == self.spec_begin_drain(),
    {
        (
            CapturePipeline { kept: false, phase: Phase::Draining, ..self },
            Action::Poll { into: Slot::Kept },
        )
    }

    fn enter(self, stage: Stage, now_ns: u64) -> (next: (CapturePipeline, Action))
        ensures
            next == self.spec_enter(stage, now_ns),
    {
        let entered = CapturePipeline { stage, ..self };
        match stage {
            Stage::Latest | Stage::Fallback => entered.begin_resolve(Slot::Kept),
            _ => entered.begin_wait(false, now_ns),
        }
    }

    fn cache_or_block(self, now_ns: u64) -> (next: (CapturePipeline, Action))
        ensures
            next == self.spec_cache_or_block(now_ns),
    {
        if self.has_cache {
            self.finish(Action::DeliverCached)
        } else {
            self.enter(Stage::Blocking, now_ns)
        }
    }

    fn after_nothing(self, now_ns: u64) -> (next: (CapturePipeline, Action))
        ensures
            next == self.spec_after_nothing(now_ns),
    {
        match self.stage {
            Stage::ForceFresh => {
                if self.has_cache {
                    self.finish(Action::DeliverCached)
                } else if self.first_call {
                    self.enter(Stage::First, now_ns)
                } else {
                    self.begin_drain()
                }
            },
            Stage::First => self.enter(Stage::Blocking, now_ns),
            Stage::Latest => self.enter(Stage::Fresh, now_ns),
            Stage::Fresh => {
                let capture: bool = match self.mode {
                    Mode::Capture => true,
                    Mode::Grab => false,
                };
                if capture && self.kept {
                    self.enter(Stage::Fallback, now_ns)
                } else {
                    self.cache_or_block(now_ns)
                }
            },
            Stage::Fallback => self.cache_or_block(now_ns),
            Stage::Blocking => self.finish(Action::Fail(CaptureError::Timeout)),
        }
    }

    fn unresolved(self, now_ns: u64) -> (next: (CapturePipeline, Action))
        ensures
            next == self.spec_unresolved(now_ns),
    {
        let last: bool = match self.stage {
            Stage::Blocking => true,
            _ => false,
        };
        if !last && self.has_cache {
            self.finish(Action::DeliverCached)
        } else {
            self.after_nothing(now_ns)
        }
    }

    fn timed_out(self, resolving: bool, now_ns: u64) -> (next: (CapturePipeline, Action))
        ensures
            next == self.spec_timed_out(resolving, now_ns),
    {
        if resolving {
            self.unresolved(now_ns)
        } else {
            match self.stage {
                Stage::First | Stage::Blocking => self.finish(Action::Fail(CaptureError::Timeout)),
                _ => self.after_nothing(now_ns),
            }
        }
    }

    fn frame_arrived(self, resolving: bool, now_ns: u64) -> (next: (CapturePipeline, Action))
        ensures
            next == self.spec_frame_arrived(resolving, now_ns),
    {
        if !resolving {
            self.begin_resolve(Slot::Current)
        } else if self.tries_left <= 1 {
            CapturePipeline { active: Slot::Current, tries_left: 0, ..self }.unresolved(now_ns)
        } else {
            (
                CapturePipeline {
                    active: Slot::Current,
                    tries_left: self.tries_left - 1,
                    phase: Phase::Inspecting,
                    ..self
                },
                Action::Inspect { slot: Slot::Current },
            )
        }
    }

    fn read_back(self, frame: RawFrameInfo) -> (next: (CapturePipeline, Action))
        ensures
            next == self.spec_read_back(frame),
    {
        match frame_bytes(frame.width, frame.height, frame.format) {
            None => self.finish(Action::Fail(CaptureError::PoolTooSmall)),
            Some(needed) => {
                let grow: bool = needed > self.output_frame_bytes;
                let size: usize = if grow {
                    needed
                } else {
                    self.output_frame_bytes
                };
                (
                    CapturePipeline { output_frame_bytes: size, phase: Phase::ReadingBack, ..self },
                    Action::Readback { frame, pool_frame_bytes: size, new_pool: grow },
                )
            },
        }
    }

    fn process(self, frame: RawFrameInfo) -> (next: (CapturePipeline, Action))
        ensures
            next == self.spec_process(frame),
    {
        if requires_processing(frame.format, self.policy) {
            (
                CapturePipeline { phase: Phase::ToneMapping { frame }, ..self },
                Action::ToneMap { width: frame.width, height: frame.height },
            )
        } else {
            self.read_back(frame)
        }
    }

    fn inspected(self, observation: &Observation, now_ns: u64) -> (next: (CapturePipeline, Action))
        ensures
            next == self.spec_inspected(*observation, now_ns),
    {
        let unavailable: bool = match observation {
            Observation::Unavailable => true,
            _ => false,
        };
        if !self.window_target && unavailable {
            return self.finish(Action::Fail(CaptureError::Platform));
        }
        match resize_target(self.window_target, observation, self.pool_width, self.pool_height) {
            Some((width, height)) => {
                let grab: bool = match self.mode {
                    Mode::Grab => true,
                    Mode::Capture => false,
                };
                (
                    CapturePipeline {
                        force_fresh: self.force_fresh || grab,
                        phase: Phase::Recreating { width, height },
                        ..self
                    },
                    Action::Recreate { width, height },
                )
            },
            None => {
                if self.drop_next {
                    CapturePipeline { drop_next: false, ..self }.begin_wait(true, now_ns)
                } else {
                    let crop: Option<ClientBox> = if self.headless {
                        match geometry_of(observation, self.pool_width, self.pool_height) {
                            Some(geo) => geo.client_box,
                            None => None,
                        }
                    } else {
                        None
                    };
                    (
                        CapturePipeline { phase: Phase::Describing { crop }, ..self },
                        Action::Describe { slot: self.active },
                    )
                }
            },
        }
    }

    fn described(self, crop: Option<ClientBox>, desc: Option<TextureDesc>) -> (next: (
        CapturePipeline,
        Action,
    ))
        ensures
            next == self.spec_described(crop, desc),
    {
        let d = match desc {
            Some(d) => d,
            None => {
                return self.finish(Action::Fail(CaptureError::Platform));
            },
        };
        let format = match color_format(d.format_code) {
            Some(format) => format,
            None => {
                return self.finish(Action::Fail(CaptureError::UnsupportedFormat));
            },
        };
        match crop {
            Some(region) => {
                if region_inside(&region, d.width, d.height) {
                    let frame = RawFrameInfo {
                        width: region.right - region.left,
                        height: region.bottom - region.top,
                        timestamp: d.timestamp,
                        format,
                    };
                    let shape = TextureShape { width: frame.width, height: frame.height, format };
                    return (
                        CapturePipeline { phase: Phase::Cropping { frame }, ..self },
                        Action::Crop { region, format, rebuild: !self.crop_cache.holds(shape) },
                    );
                }
            },
            None => {},
        }
        self.process(
            RawFrameInfo { width: d.width, height: d.height, timestamp: d.timestamp, format },
        )
    }

    fn start(self, mode: Mode, now_ns: u64) -> (next: (CapturePipeline, Action))
        ensures
            next == self.spec_start(mode, now_ns),
    {
        let called = CapturePipeline { mode, kept: false, ..self };
        let grab: bool = match mode {
            Mode::Grab => true,
            Mode::Capture => false,
        };
        if grab && self.force_fresh {
            CapturePipeline { force_fresh: false, ..called }.enter(Stage::ForceFresh, now_ns)
        } else if self.first_call {
            called.enter(Stage::First, now_ns)
        } else {
            called.begin_drain()
        }
    }

    fn advanced(self, event: &Event, now_ns: u64) -> (next: (CapturePipeline, Action))
        ensures
            next == self.spec_advance(*event, now_ns),
    {
        match (self.phase, event) {
            (Phase::Draining, Event::Polled { got }) => {
                let grab: bool = match self.mode {
                    Mode::Grab => true,
                    Mode::Capture => false,
                };
                if *got {
                    (CapturePipeline { kept: true, ..self }, Action::Poll { into: Slot::Kept })
                } else if grab && self.kept {
                    self.enter(Stage::Latest, now_ns)
                } else {
                    self.enter(Stage::Fresh, now_ns)
                }
            },
            (Phase::Polling { deadline, resolving }, Event::Polled { got }) => {
                if *got {
                    self.frame_arrived(resolving, now_ns)
                } else if deadline <= now_ns as u128 {
                    self.timed_out(resolving, now_ns)
                } else {
                    (
                        CapturePipeline { phase: Phase::Sleeping { deadline, resolving }, ..self },
                        Action::Wait { timeout_ms: wait_ms(deadline - now_ns as u128) },
                    )
                }
            },
            (Phase::Sleeping { deadline, resolving }, Event::Waited { signaled }) => {
                if *signaled {
                    (
                        CapturePipeline { phase: Phase::Polling { deadline, resolving }, ..self },
                        Action::Poll { into: Slot::Current },
                    )
                } else {
                    self.timed_out(resolving, now_ns)
                }
            },
            (Phase::Inspecting, Event::Inspected(observation)) => self.inspected(
                observation,
                now_ns,
            ),
            (Phase::Recreating { width, height }, Event::Recreated { ok }) => {
                if *ok {
                    CapturePipeline {
                        pool_width: width,
                        pool_height: height,
                        drop_next: true,
                        ..self
                    }.begin_wait(true, now_ns)
                } else {
                    self.finish(Action::Fail(CaptureError::Platform))
                }
            },
            (Phase::Describing { crop }, Event::Described(desc)) => self.described(crop, *desc),
            (Phase::Cropping { frame }, Event::Cropped { ok }) => {
                if *ok {
                    let mut crop_cache = self.crop_cache;
                    crop_cache.store(
                        TextureShape {
                            width: frame.width,
                            height: frame.height,
                            format: frame.format,
                        },
                    );
                    CapturePipeline { crop_cache, ..self }.process(frame)
                } else {
                    self.finish(Action::Fail(CaptureError::Platform))
                }
            },
            (Phase::ToneMapping { frame }, Event::ToneMapped { ok }) => {
                if *ok {
                    self.read_back(RawFrameInfo { format: ColorPixelFormat::Bgra8, ..frame })
                } else {
                    self.finish(Action::Fail(CaptureError::Platform))
                }
            },
            (Phase::ReadingBack, Event::ReadBack(failure)) => match failure {
                Some(error) => self.finish(Action::Fail(*error)),
                None => CapturePipeline { has_cache: true, first_call: false, ..self }.finish(
                    Action::DeliverFresh,
                ),
            },
            _ => self.finish(Action::Fail(CaptureError::Platform)),
        }
    }

    /// Begin a call with screenshot semantics: the frame delivered was made
    /// after this call began, unless the screen stands still.
    ///
    /// Before any frame was delivered the call waits for the first frame. Later
    /// it drains the backlog and waits briefly for a fresh frame.
    pub fn capture(&mut self, now_ns: u64) -> (action: Action)
        requires
            old(self).phase is Idle,
        ensures
            (*final(self), action) == old(self).spec_start(Mode::Capture, now_ns),
            !action.is_final(),
            old(self).first_call ==> action == (Action::Poll { into: Slot::Current })
                && final(self).stage == Stage::First,
            !old(self).first_call ==> action == (Action::Poll { into: Slot::Kept })
                && final(self).phase is Draining,
    {
        let (next, action) = self.start(Mode::Capture, now_ns);
        *self = next;
        action
    }

    /// Begin a call with low-latency semantics: the frame delivered is the
    /// latest at hand.
    ///
    /// After a grab has seen a resize, the next grab first waits briefly for a
    /// fresh frame. Else, before any frame was delivered, the call waits for
    /// the first frame; later it drains the backlog and uses its last frame.
    pub fn grab(&mut self, now_ns: u64) -> (action: Action)
        requires
            old(self).phase is Idle,
        ensures
            (*final(self), action) == old(self).spec_start(Mode::Grab, now_ns),
            !action.is_final(),
            !final(self).force_fresh,
            old(self).force_fresh ==> action == (Action::Poll { into: Slot::Current })
                && final(self).stage == Stage::ForceFresh,
    {
        let (next, action) = self.start(Mode::Grab, now_ns);
        *self = next;
        action
    }

    /// Take the outcome of the last action and decide the next one.
    ///
    /// `now_ns` is the time on a monotonic clock, in nanoseconds, at which the
    /// event is handed in. An action that ends the call leaves the pipeline
    /// idle. An event that does not answer the action given last ends the
    /// call with a failure.
    pub fn advance(&mut self, event: Event, now_ns: u64) -> (action: Action)
        ensures
            (*final(self), action) == old(self).spec_advance(event, now_ns),
            step_sound(*old(self), *final(self), action),
    {
        proof {
            lemma_advance_sound(*self, event, now_ns);
        }
        let (next, action) = (*self).advanced(&event, now_ns);
        *self = next;
        action
    }
}

} // verus!
