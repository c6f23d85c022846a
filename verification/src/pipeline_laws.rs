//! What holds of every step and of some runs of the capture pipeline.

use vstd::prelude::*;

use crate::color::{spec_frame_bytes, spec_output_format, spec_requires_processing, ColorPixelFormat};
use crate::error::CaptureError;
use crate::geometry::ClientBox;
use crate::pipeline::{spec_resize_target, CapturePipeline, Phase, RESIZE_RETRY_LIMIT};
use crate::pipeline_types::{
    Action, Event, Mode, Observation, RawFrameInfo, Slot, Stage, TextureDesc,
};
use crate::policy::{spec_pool_format, CapturePolicy};
use crate::texture::spec_color_format;

verus! {

/// The format a pipeline delivers under `policy`: half floats under `Hdr`,
/// 8 bit else.
pub open spec fn spec_delivered_format(policy: CapturePolicy) -> ColorPixelFormat {
    if policy == CapturePolicy::Hdr {
        ColorPixelFormat::Rgba16f
    } else {
        ColorPixelFormat::Bgra8
    }
}

/// Whatever the display's HDR state, a frame captured in the pool format of a
/// policy leaves the color stage in the format that the policy delivers.
pub proof fn lemma_delivered_format(policy: CapturePolicy, hdr_active: bool)
    ensures
        spec_output_format(spec_pool_format(policy, hdr_active), policy) == spec_delivered_format(
            policy,
        ),
        spec_requires_processing(spec_pool_format(policy, hdr_active), policy) <==> policy
            == CapturePolicy::Auto && hdr_active,
{
}

/// What every step keeps: the session's settings stay, a call ends exactly
/// when the pipeline falls idle, the cached frame is handed out only if there
/// is one, a fresh delivery leaves a cache behind and ends the time before the
/// first frame, and a readback gets a pool whose buffers hold the frame, in a
/// format that needs no more processing.
pub open spec fn step_sound(before: CapturePipeline, after: CapturePipeline, action: Action) -> bool {
    &&& action.is_final() <==> after.phase is Idle
    &&& after.policy == before.policy
    &&& after.target_hdr == before.target_hdr
    &&& after.window_target == before.window_target
    &&& after.headless == before.headless
    &&& after.mode == before.mode
    &&& action is DeliverCached ==> before.has_cache
    &&& after.has_cache == (before.has_cache || action is DeliverFresh)
    &&& after.first_call == (before.first_call && !(action is DeliverFresh))
    &&& after.output_frame_bytes >= before.output_frame_bytes
    &&& action matches Action::Readback { frame, pool_frame_bytes, new_pool } ==> {
        &&& spec_frame_bytes(frame.width as nat, frame.height as nat, frame.format)
            <= pool_frame_bytes
        &&& pool_frame_bytes == after.output_frame_bytes
        &&& new_pool == (after.output_frame_bytes > before.output_frame_bytes)
        &&& !spec_requires_processing(frame.format, before.policy)
    }
}

/// Entering a stage is a sound step that never ends the call.
pub proof fn lemma_enter_sound(m: CapturePipeline, stage: Stage, now_ns: u64)
    ensures
        step_sound(m, m.spec_enter(stage, now_ns).0, m.spec_enter(stage, now_ns).1),
        !m.spec_enter(stage, now_ns).1.is_final(),
        !(m.spec_enter(stage, now_ns).1 is Readback),
{
}

/// Going on after a stage that brought no frame is a sound step.
pub proof fn lemma_after_nothing_sound(m: CapturePipeline, now_ns: u64)
    ensures
        step_sound(m, m.spec_after_nothing(now_ns).0, m.spec_after_nothing(now_ns).1),
        !(m.spec_after_nothing(now_ns).1 is Readback),
        !(m.spec_after_nothing(now_ns).1 is DeliverFresh),
{
    lemma_enter_sound(m, Stage::First, now_ns);
    lemma_enter_sound(m, Stage::Blocking, now_ns);
    lemma_enter_sound(m, Stage::Fresh, now_ns);
    lemma_enter_sound(m, Stage::Fallback, now_ns);
}

/// Going on after a frame that could not be resolved is a sound step.
pub proof fn lemma_unresolved_sound(m: CapturePipeline, now_ns: u64)
    ensures
        step_sound(m, m.spec_unresolved(now_ns).0, m.spec_unresolved(now_ns).1),
        !(m.spec_unresolved(now_ns).1 is Readback),
        !(m.spec_unresolved(now_ns).1 is DeliverFresh),
{
    lemma_after_nothing_sound(m, now_ns);
}

/// Going on after a wait that ran out is a sound step.
pub proof fn lemma_timed_out_sound(m: CapturePipeline, resolving: bool, now_ns: u64)
    ensures
        step_sound(m, m.spec_timed_out(resolving, now_ns).0, m.spec_timed_out(resolving, now_ns).1),
        !(m.spec_timed_out(resolving, now_ns).1 is Readback),
        !(m.spec_timed_out(resolving, now_ns).1 is DeliverFresh),
{
    lemma_unresolved_sound(m, now_ns);
    lemma_after_nothing_sound(m, now_ns);
}

/// Going on after a frame arrived is a sound step.
pub proof fn lemma_frame_arrived_sound(m: CapturePipeline, resolving: bool, now_ns: u64)
    ensures
        step_sound(
            m,
            m.spec_frame_arrived(resolving, now_ns).0,
            m.spec_frame_arrived(resolving, now_ns).1,
        ),
        !(m.spec_frame_arrived(resolving, now_ns).1 is Readback),
        !(m.spec_frame_arrived(resolving, now_ns).1 is DeliverFresh),
{
    let spent = CapturePipeline { active: Slot::Current, tries_left: 0, ..m };
    lemma_unresolved_sound(spent, now_ns);
}

/// Sending a frame to the readback is a sound step.
pub proof fn lemma_read_back_sound(m: CapturePipeline, frame: RawFrameInfo)
    requires
        !spec_requires_processing(frame.format, m.policy),
    ensures
        step_sound(m, m.spec_read_back(frame).0, m.spec_read_back(frame).1),
        !(m.spec_read_back(frame).1 is DeliverFresh),
        !(m.spec_read_back(frame).1 is DeliverCached),
{
}

/// Sending a frame through the color stage is a sound step.
pub proof fn lemma_process_sound(m: CapturePipeline, frame: RawFrameInfo)
    ensures
        step_sound(m, m.spec_process(frame).0, m.spec_process(frame).1),
        !(m.spec_process(frame).1 is DeliverFresh),
        !(m.spec_process(frame).1 is DeliverCached),
{
    if !spec_requires_processing(frame.format, m.policy) {
        lemma_read_back_sound(m, frame);
    }
}

/// Going on after an inspection is a sound step.
pub proof fn lemma_inspected_sound(m: CapturePipeline, observation: Observation, now_ns: u64)
    ensures
        step_sound(
            m,
            m.spec_inspected(observation, now_ns).0,
            m.spec_inspected(observation, now_ns).1,
        ),
{
}

/// Going on after the active frame was unwrapped is a sound step.
pub proof fn lemma_described_sound(
    m: CapturePipeline,
    crop: Option<ClientBox>,
    desc: Option<TextureDesc>,
)
    ensures
        step_sound(m, m.spec_described(crop, desc).0, m.spec_described(crop, desc).1),
{
    if desc is Some && spec_color_format(desc->0.format_code) is Some {
        let d = desc->0;
        lemma_process_sound(
            m,
            RawFrameInfo {
                width: d.width,
                height: d.height,
                timestamp: d.timestamp,
                format: spec_color_format(d.format_code)->0,
            },
        );
    }
}

/// Going on after a drain poll is a sound step.
pub proof fn lemma_drained_sound(m: CapturePipeline, got: bool, now_ns: u64)
    requires
        m.phase is Draining,
    ensures
        step_sound(
            m,
            m.spec_advance(Event::Polled { got }, now_ns).0,
            m.spec_advance(Event::Polled { got }, now_ns).1,
        ),
{
    lemma_enter_sound(m, Stage::Latest, now_ns);
    lemma_enter_sound(m, Stage::Fresh, now_ns);
}

/// Going on after a poll or a sleep of a wait is a sound step.
pub proof fn lemma_waited_sound(m: CapturePipeline, event: Event, now_ns: u64)
    requires
        (m.phase is Polling && event is Polled) || (m.phase is Sleeping && event is Waited),
    ensures
        step_sound(m, m.spec_advance(event, now_ns).0, m.spec_advance(event, now_ns).1),
{
    match m.phase {
        Phase::Polling { deadline, resolving } => {
            lemma_frame_arrived_sound(m, resolving, now_ns);
            lemma_timed_out_sound(m, resolving, now_ns);
        },
        Phase::Sleeping { deadline, resolving } => {
            lemma_timed_out_sound(m, resolving, now_ns);
        },
        _ => {},
    }
}

/// Going on after the stages that work on the texture is a sound step.
pub proof fn lemma_texture_step_sound(m: CapturePipeline, event: Event, now_ns: u64)
    requires
        (m.phase is Recreating && event is Recreated) || (m.phase is Cropping && event is Cropped)
            || (m.phase is ToneMapping && event is ToneMapped) || (m.phase is ReadingBack
            && event is ReadBack),
    ensures
        step_sound(m, m.spec_advance(event, now_ns).0, m.spec_advance(event, now_ns).1),
{
    match m.phase {
        Phase::Cropping { frame } => {
            let stored = m.spec_advance(Event::Cropped { ok: true }, now_ns).0;
            let cut = CapturePipeline { crop_cache: stored.crop_cache, ..m };
            lemma_process_sound(cut, frame);
        },
        Phase::ToneMapping { frame } => {
            lemma_read_back_sound(m, RawFrameInfo { format: ColorPixelFormat::Bgra8, ..frame });
        },
        _ => {},
    }
}

/// An event that does not answer the action given last ends the call with a
/// failure and changes nothing else.
pub proof fn lemma_out_of_step(m: CapturePipeline, event: Event, now_ns: u64)
    requires
        !m.accepts(event),
        !(m.phase is Inspecting && event is Inspected),
    ensures
        m.spec_advance(event, now_ns) == m.spec_finish(Action::Fail(CaptureError::Platform)),
{
}

/// Every step of the pipeline is sound.
pub proof fn lemma_advance_sound(m: CapturePipeline, event: Event, now_ns: u64)
    ensures
        step_sound(m, m.spec_advance(event, now_ns).0, m.spec_advance(event, now_ns).1),
{
    if m.accepts(event) {
        match m.phase {
            Phase::Idle => {},
            Phase::Draining => {
                lemma_drained_sound(m, event->Polled_got, now_ns);
            },
            Phase::Polling { .. } => {
                lemma_waited_sound(m, event, now_ns);
            },
            Phase::Sleeping { .. } => {
                lemma_waited_sound(m, event, now_ns);
            },
            Phase::Inspecting => {
                lemma_inspected_sound(m, event->Inspected_0, now_ns);
            },
            Phase::Describing { crop } => {
                lemma_described_sound(m, crop, event->Described_0);
            },
            _ => {
                lemma_texture_step_sound(m, event, now_ns);
            },
        }
    } else if m.phase is Inspecting && event is Inspected {
        lemma_inspected_sound(m, event->Inspected_0, now_ns);
    } else {
        lemma_out_of_step(m, event, now_ns);
    }
}

/// A minimized window is not cropped and causes no resize: whatever else the
/// window system answered, the frame at hand is unwrapped as it is, and once
/// unwrapped it goes on at the texture's own size.
pub proof fn lemma_minimized_window_passes_raw(
    m: CapturePipeline,
    probe: crate::geometry::WindowProbe,
    desc: TextureDesc,
    now_ns: u64,
)
    requires
        m.phase is Inspecting,
        m.window_target,
        !m.drop_next,
        probe.minimized,
        spec_color_format(desc.format_code) is Some,
    ensures
        ({
            let (unwrapping, first) = m.spec_advance(
                Event::Inspected(Observation::Window(probe)),
                now_ns,
            );
            let (processing, second) = unwrapping.spec_advance(
                Event::Described(Some(desc)),
                now_ns,
            );
            let raw = RawFrameInfo {
                width: desc.width,
                height: desc.height,
                timestamp: desc.timestamp,
                format: spec_color_format(desc.format_code)->0,
            };
            &&& first == (Action::Describe { slot: m.active })
            &&& unwrapping.phase == (Phase::Describing { crop: None })
            &&& unwrapping.pool_width == m.pool_width && unwrapping.pool_height == m.pool_height
            &&& (processing, second) == unwrapping.spec_process(raw)
            &&& !(second is Crop)
        }),
{
}

/// One round of a resize: the inspection finds another size, the frame pool
/// is rebuilt, and the next frame arrives.
pub open spec fn spec_resize_round(m: CapturePipeline, observation: Observation, now_ns: u64) -> (
    CapturePipeline,
    Action,
) {
    m.spec_advance(Event::Inspected(observation), now_ns).0.spec_advance(
        Event::Recreated { ok: true },
        now_ns,
    ).0.spec_advance(Event::Polled { got: true }, now_ns)
}

/// Whether an inspection of `observation` finds a size other than the frame
/// pool's.
pub open spec fn spec_sees_resize(m: CapturePipeline, observation: Observation) -> bool {
    &&& m.phase is Inspecting
    &&& (m.window_target <==> observation is Window)
    &&& spec_resize_target(m.window_target, observation, m.pool_width, m.pool_height) is Some
}

/// A round of a resize uses up one of the rounds that a frame has, and while
/// a round is left the new frame is inspected in turn.
pub proof fn lemma_resize_round(m: CapturePipeline, observation: Observation, now_ns: u64)
    requires
        spec_sees_resize(m, observation),
    ensures
        ({
            let (after, action) = spec_resize_round(m, observation, now_ns);
            let size = spec_resize_target(
                m.window_target,
                observation,
                m.pool_width,
                m.pool_height,
            )->0;
            let spent = CapturePipeline {
                pool_width: size.0,
                pool_height: size.1,
                force_fresh: m.force_fresh || m.mode == Mode::Grab,
                drop_next: true,
                active: Slot::Current,
                tries_left: 0,
                phase: (Phase::Polling {
                    deadline: (now_ns + crate::pipeline::spec_resolve_timeout_ms(m.stage)
                        * crate::pipeline::NANOS_PER_MILLI) as u128,
                    resolving: true,
                }),
                ..m
            };
            &&& m.tries_left > 1 ==> {
                &&& action == (Action::Inspect { slot: Slot::Current })
                &&& after.phase is Inspecting
                &&& after.tries_left == m.tries_left - 1
                &&& after.pool_width == size.0 && after.pool_height == size.1
                &&& after.stage == m.stage && after.has_cache == m.has_cache
                &&& after.window_target == m.window_target
                &&& after.mode == m.mode
            }
            &&& m.tries_left <= 1 ==> (after, action) == spent.spec_unresolved(now_ns)
        }),
{
}

/// A target that changes its size at every look is given up: after
/// `RESIZE_RETRY_LIMIT` rounds, each of which found another size, no frame
/// is processed. The call hands out the cached frame if there is one; in its
/// last stage it fails with a timeout; else it goes on to its next stage.
pub proof fn lemma_resize_three_times(
    m: CapturePipeline,
    first: Observation,
    second: Observation,
    third: Observation,
    now_ns: u64,
)
    requires
        m.tries_left == RESIZE_RETRY_LIMIT,
        spec_sees_resize(m, first),
        spec_sees_resize(spec_resize_round(m, first, now_ns).0, second),
        spec_sees_resize(
            spec_resize_round(spec_resize_round(m, first, now_ns).0, second, now_ns).0,
            third,
        ),
    ensures
        ({
            let one = spec_resize_round(m, first, now_ns).0;
            let two = spec_resize_round(one, second, now_ns).0;
            let (end, action) = spec_resize_round(two, third, now_ns);
            &&& m.stage != Stage::Blocking && m.has_cache ==> action is DeliverCached
                && end.phase is Idle
            &&& m.stage == Stage::Blocking ==> action == Action::Fail(CaptureError::Timeout)
                && end.phase is Idle
            &&& !(action is Describe) && !(action is Readback) && !(action is DeliverFresh)
            &&& m.mode == Mode::Grab ==> end.force_fresh
        }),
{
    let one = spec_resize_round(m, first, now_ns).0;
    lemma_resize_round(m, first, now_ns);
    let two = spec_resize_round(one, second, now_ns).0;
    lemma_resize_round(one, second, now_ns);
    lemma_resize_round(two, third, now_ns);
    let size = spec_resize_target(two.window_target, third, two.pool_width, two.pool_height)->0;
    let spent = CapturePipeline {
        pool_width: size.0,
        pool_height: size.1,
        force_fresh: two.force_fresh || two.mode == Mode::Grab,
        drop_next: true,
        active: Slot::Current,
        tries_left: 0,
        phase: (Phase::Polling {
            deadline: (now_ns + crate::pipeline::spec_resolve_timeout_ms(two.stage)
                * crate::pipeline::NANOS_PER_MILLI) as u128,
            resolving: true,
        }),
        ..two
    };
    lemma_unresolved_sound(spent, now_ns);
    lemma_after_nothing_no_unwrap(spent, now_ns);
}

/// Going on after a stage that brought no frame never unwraps a frame.
pub proof fn lemma_after_nothing_no_unwrap(m: CapturePipeline, now_ns: u64)
    ensures
        !(m.spec_after_nothing(now_ns).1 is Describe),
        !(m.spec_unresolved(now_ns).1 is Describe),
{
}

/// On a screen that stands still the cached frame is handed out again. The
/// call finds the backlog empty, waits for a fresh frame, and the wait runs
/// out, at the first look (`slept` is false) or after a sleep that no frame
/// ended: then, if a frame is cached, that frame is delivered and the pipeline
/// is as it was before the call. The times are those of a clock that does not
/// run backwards.
pub proof fn lemma_static_screen_serves_cache(
    m: CapturePipeline,
    mode: Mode,
    slept: bool,
    start_ns: u64,
    drained_ns: u64,
    polled_ns: u64,
    woken_ns: u64,
)
    requires
        m.phase is Idle,
        !m.first_call,
        !m.force_fresh,
        m.has_cache,
        drained_ns <= polled_ns,
        slept <==> polled_ns < drained_ns + crate::pipeline::FRESH_FRAME_TIMEOUT_MS
            * crate::pipeline::NANOS_PER_MILLI,
    ensures
        ({
            let (draining, poll_backlog) = m.spec_start(mode, start_ns);
            let (waiting, poll_fresh) = draining.spec_advance(
                Event::Polled { got: false },
                drained_ns,
            );
            let (looked, wait) = waiting.spec_advance(Event::Polled { got: false }, polled_ns);
            let (end, last) = if slept {
                looked.spec_advance(Event::Waited { signaled: false }, woken_ns)
            } else {
                (looked, wait)
            };
            &&& poll_backlog == (Action::Poll { into: Slot::Kept })
            &&& poll_fresh == (Action::Poll { into: Slot::Current })
            &&& slept ==> wait is Wait && wait->timeout_ms <= crate::pipeline::FRESH_FRAME_TIMEOUT_MS
            &&& last is DeliverCached
            &&& end.phase is Idle
            &&& end.has_cache && !end.first_call && !end.force_fresh
            &&& end.pool_width == m.pool_width && end.pool_height == m.pool_height
            &&& end.output_frame_bytes == m.output_frame_bytes
        }),
{
    let (draining, poll_backlog) = m.spec_start(mode, start_ns);
    let (waiting, poll_fresh) = draining.spec_advance(Event::Polled { got: false }, drained_ns);
    assert(waiting.stage == Stage::Fresh);
    assert(!waiting.kept);
    assert(waiting.phase == (Phase::Polling {
        deadline: (drained_ns + crate::pipeline::FRESH_FRAME_TIMEOUT_MS
            * crate::pipeline::NANOS_PER_MILLI) as u128,
        resolving: false,
    }));
    if slept {
        let remaining = drained_ns + crate::pipeline::FRESH_FRAME_TIMEOUT_MS
            * crate::pipeline::NANOS_PER_MILLI - polled_ns;
        assert(0 < remaining <= 50_000_000);
        assert(remaining / 1_000_000 <= 50);
    }
}

/// A call reads back at most once: whatever comes of a readback, the answer
/// to it ends the call.
pub proof fn lemma_readback_ends_call(m: CapturePipeline, event: Event, now_ns: u64)
    requires
        m.phase is ReadingBack,
    ensures
        m.spec_advance(event, now_ns).1.is_final(),
        m.spec_advance(event, now_ns).1 is DeliverFresh <==> event == Event::ReadBack(None),
{
}

/// The action that follows `action` once the crop and the tone map, if they
/// are asked for, have gone well.
pub open spec fn spec_through_color_stage(m: CapturePipeline, action: Action, now_ns: u64) -> (
    CapturePipeline,
    Action,
) {
    let (cut, after_crop) = if action is Crop {
        m.spec_advance(Event::Cropped { ok: true }, now_ns)
    } else {
        (m, action)
    };
    if after_crop is ToneMap {
        cut.spec_advance(Event::ToneMapped { ok: true }, now_ns)
    } else {
        (cut, after_crop)
    }
}

/// The format of a delivered frame follows from the policy alone. A frame
/// whose texture has the frame pool's format, for whatever HDR state the pool
/// was made, is read back in the format that the policy delivers: 8 bit under
/// `Auto` and `Sdr`, half floats under `Hdr`. Under `Auto` a half-float
/// texture passes the tone map on its way, and no other texture does.
pub proof fn lemma_delivered_frame_format(
    m: CapturePipeline,
    crop: Option<ClientBox>,
    desc: TextureDesc,
    hdr_active: bool,
    now_ns: u64,
)
    requires
        m.phase == (Phase::Describing { crop }),
        spec_color_format(desc.format_code) == Some(spec_pool_format(m.policy, hdr_active)),
    ensures
        ({
            let (unwrapped, first) = m.spec_advance(Event::Described(Some(desc)), now_ns);
            let (reading, last) = spec_through_color_stage(unwrapped, first, now_ns);
            let tone_mapped = first is ToneMap || (first is Crop && unwrapped.spec_advance(
                Event::Cropped { ok: true },
                now_ns,
            ).1 is ToneMap);
            &&& last is Readback || last == Action::Fail(CaptureError::PoolTooSmall)
            &&& last matches Action::Readback { frame, .. } ==> frame.format
                == spec_delivered_format(m.policy)
            &&& tone_mapped <==> m.policy == CapturePolicy::Auto && hdr_active
        }),
{
    lemma_delivered_format(m.policy, hdr_active);
}

/// The pipeline is looking for a frame to process: it drains, waits,
/// inspects or rebuilds the frame pool, and has unwrapped no frame yet.
pub open spec fn spec_seeking(m: CapturePipeline) -> bool {
    m.phase is Draining || m.phase is Polling || m.phase is Sleeping || m.phase is Inspecting
        || m.phase is Recreating
}

/// The event answers the action given last, and the platform did not refuse:
/// the frame pool was rebuilt when asked, and the frame told its size.
pub open spec fn spec_benign(m: CapturePipeline, event: Event) -> bool {
    &&& m.accepts(event)
    &&& event != (Event::Recreated { ok: false })
    &&& event != Event::Inspected(Observation::Unavailable)
}

/// What a step leaves behind while the pipeline seeks a frame and has none
/// cached: still nothing cached and nothing delivered; the call either goes on
/// seeking, or unwraps a frame, or ends with a timeout.
pub open spec fn spec_still_seeking(
    before: CapturePipeline,
    after: CapturePipeline,
    action: Action,
) -> bool {
    &&& !after.has_cache
    &&& after.first_call == before.first_call
    &&& after.policy == before.policy
    &&& action.is_final() ==> action == Action::Fail(CaptureError::Timeout) && after.phase is Idle
    &&& !action.is_final() ==> (if action is Describe {
        after.phase is Describing
    } else {
        spec_seeking(after)
    })
    &&& !(action is Readback) && !(action is Crop) && !(action is ToneMap)
}

proof fn lemma_enter_seeks(m: CapturePipeline, stage: Stage, now_ns: u64)
    requires
        !m.has_cache,
    ensures
        spec_still_seeking(m, m.spec_enter(stage, now_ns).0, m.spec_enter(stage, now_ns).1),
        !(m.spec_enter(stage, now_ns).1 is Describe),
{
}

proof fn lemma_after_nothing_seeks(m: CapturePipeline, now_ns: u64)
    requires
        !m.has_cache,
    ensures
        spec_still_seeking(m, m.spec_after_nothing(now_ns).0, m.spec_after_nothing(now_ns).1),
        spec_still_seeking(m, m.spec_unresolved(now_ns).0, m.spec_unresolved(now_ns).1),
        !(m.spec_after_nothing(now_ns).1 is Describe),
        !(m.spec_unresolved(now_ns).1 is Describe),
{
    lemma_enter_seeks(m, Stage::First, now_ns);
    lemma_enter_seeks(m, Stage::Blocking, now_ns);
    lemma_enter_seeks(m, Stage::Fresh, now_ns);
    lemma_enter_seeks(m, Stage::Fallback, now_ns);
}

proof fn lemma_wait_seeks(m: CapturePipeline, resolving: bool, now_ns: u64)
    requires
        !m.has_cache,
    ensures
        spec_still_seeking(
            m,
            m.spec_timed_out(resolving, now_ns).0,
            m.spec_timed_out(resolving, now_ns).1,
        ),
        spec_still_seeking(
            m,
            m.spec_frame_arrived(resolving, now_ns).0,
            m.spec_frame_arrived(resolving, now_ns).1,
        ),
        !(m.spec_timed_out(resolving, now_ns).1 is Describe),
        !(m.spec_frame_arrived(resolving, now_ns).1 is Describe),
{
    lemma_after_nothing_seeks(m, now_ns);
    let spent = CapturePipeline { active: Slot::Current, tries_left: 0, ..m };
    lemma_after_nothing_seeks(spent, now_ns);
}

/// While the pipeline seeks a frame and has none cached, a step delivers
/// nothing: the call goes on seeking, or unwraps a frame, or ends with a
/// timeout. A frame is unwrapped only after an inspection that found its size
/// to be the frame pool's and that did not have to discard it.
pub proof fn lemma_seeking_step(m: CapturePipeline, event: Event, now_ns: u64)
    requires
        spec_seeking(m),
        !m.has_cache,
        spec_benign(m, event),
    ensures
        spec_still_seeking(m, m.spec_advance(event, now_ns).0, m.spec_advance(event, now_ns).1),
        m.spec_advance(event, now_ns).1 is Describe ==> m.phase is Inspecting && !m.drop_next
            && spec_resize_target(
            m.window_target,
            event->Inspected_0,
            m.pool_width,
            m.pool_height,
        ) is None,
{
    match m.phase {
        Phase::Draining => {
            lemma_enter_seeks(m, Stage::Latest, now_ns);
            lemma_enter_seeks(m, Stage::Fresh, now_ns);
        },
        Phase::Polling { deadline, resolving } => {
            lemma_wait_seeks(m, resolving, now_ns);
        },
        Phase::Sleeping { deadline, resolving } => {
            lemma_wait_seeks(m, resolving, now_ns);
        },
        _ => {},
    }
}

/// A call begins by seeking a frame, and beginning changes neither the cache
/// nor whether a frame was ever delivered.
pub proof fn lemma_start_seeks(m: CapturePipeline, mode: Mode, now_ns: u64)
    ensures
        spec_seeking(m.spec_start(mode, now_ns).0),
        m.spec_start(mode, now_ns).0.has_cache == m.has_cache,
        m.spec_start(mode, now_ns).0.first_call == m.first_call,
        m.spec_start(mode, now_ns).0.policy == m.policy,
{
}

/// The pipeline after the events of `trace`, each with the time it came at.
pub open spec fn spec_after(m: CapturePipeline, trace: Seq<(Event, u64)>) -> CapturePipeline
    decreases trace.len(),
{
    if trace.len() == 0 {
        m
    } else {
        spec_after(m.spec_advance(trace[0].0, trace[0].1).0, trace.drop_first())
    }
}

/// The action that answers the last event of `trace`.
pub open spec fn spec_last_action(m: CapturePipeline, trace: Seq<(Event, u64)>) -> Action
    decreases trace.len(),
{
    if trace.len() <= 1 {
        m.spec_advance(trace[0].0, trace[0].1).1
    } else {
        spec_last_action(m.spec_advance(trace[0].0, trace[0].1).0, trace.drop_first())
    }
}

/// No event of `trace` leads to a frame being unwrapped: every frame that is
/// inspected shows another size than the frame pool's or is discarded, or no
/// frame arrives at all. The platform refuses nothing.
pub open spec fn spec_never_settles(m: CapturePipeline, trace: Seq<(Event, u64)>) -> bool
    decreases trace.len(),
{
    if trace.len() == 0 {
        true
    } else {
        let (next, action) = m.spec_advance(trace[0].0, trace[0].1);
        &&& spec_benign(m, trace[0].0)
        &&& !(action is Describe)
        &&& spec_never_settles(next, trace.drop_first())
    }
}

/// A call that finds no frame to settle on, with nothing cached, delivers
/// nothing. However long it goes on, and whichever of the two modes it is in:
/// no frame is read back, nothing is cached afterwards, the time before the
/// first frame is not over, and if the call has ended, it has ended with a
/// timeout.
pub proof fn lemma_unsettled_call_times_out(m: CapturePipeline, trace: Seq<(Event, u64)>)
    requires
        spec_seeking(m),
        !m.has_cache,
        trace.len() > 0,
        spec_never_settles(m, trace),
    ensures
        !spec_after(m, trace).has_cache,
        spec_after(m, trace).first_call == m.first_call,
        !(spec_last_action(m, trace) is DeliverFresh),
        !(spec_last_action(m, trace) is DeliverCached),
        !(spec_last_action(m, trace) is Readback),
        spec_last_action(m, trace).is_final() <==> spec_after(m, trace).phase is Idle,
        spec_last_action(m, trace).is_final() ==> spec_last_action(m, trace) == Action::Fail(
            CaptureError::Timeout,
        ),
    decreases trace.len(),
{
    reveal_with_fuel(spec_never_settles, 2);
    let (next, action) = m.spec_advance(trace[0].0, trace[0].1);
    lemma_seeking_step(m, trace[0].0, trace[0].1);
    let rest = trace.drop_first();
    assert(spec_never_settles(next, rest));
    if rest.len() > 0 {
        // The call has not ended: an idle pipeline accepts no event.
        assert(spec_benign(next, rest[0].0));
        assert(!(next.phase is Idle));
        assert(spec_seeking(next));
        lemma_unsettled_call_times_out(next, rest);
        assert(spec_after(m, trace) == spec_after(next, rest));
        assert(spec_last_action(m, trace) == spec_last_action(next, rest));
    } else {
        assert(spec_after(next, rest) == next);
    }
}

/// The tone map runs under `Auto` only, on a half-float frame, and at most
/// once for a frame: what follows it is the readback or the end of the call.
pub proof fn lemma_tone_map_once(m: CapturePipeline, event: Event, now_ns: u64)
    ensures
        m.spec_advance(event, now_ns).1 is ToneMap ==> m.policy == CapturePolicy::Auto && (
        m.phase is Describing || m.phase is Cropping),
        m.phase is ToneMapping ==> !(m.spec_advance(event, now_ns).1 is ToneMap) && (m.spec_advance(
            event,
            now_ns,
        ).1 is Readback || m.spec_advance(event, now_ns).1 is Fail),
        m.policy != CapturePolicy::Auto ==> !(m.spec_advance(event, now_ns).1 is ToneMap),
{
    lemma_advance_sound(m, event, now_ns);
    match m.phase {
        Phase::Draining => {
            lemma_enter_sound(m, Stage::Latest, now_ns);
            lemma_enter_sound(m, Stage::Fresh, now_ns);
        },
        Phase::Polling { deadline, resolving } => {
            lemma_frame_arrived_sound(m, resolving, now_ns);
            lemma_timed_out_sound(m, resolving, now_ns);
            lemma_no_tone_map_while_waiting(m, resolving, now_ns);
        },
        Phase::Sleeping { deadline, resolving } => {
            lemma_timed_out_sound(m, resolving, now_ns);
            lemma_no_tone_map_while_waiting(m, resolving, now_ns);
        },
        _ => {},
    }
}

proof fn lemma_no_tone_map_while_waiting(m: CapturePipeline, resolving: bool, now_ns: u64)
    ensures
        !(m.spec_timed_out(resolving, now_ns).1 is ToneMap),
        !(m.spec_frame_arrived(resolving, now_ns).1 is ToneMap),
        !(m.spec_after_nothing(now_ns).1 is ToneMap),
        !(m.spec_unresolved(now_ns).1 is ToneMap),
{
    let spent = CapturePipeline { active: Slot::Current, tries_left: 0, ..m };
    assert(!(spent.spec_after_nothing(now_ns).1 is ToneMap));
    assert(!(spent.spec_unresolved(now_ns).1 is ToneMap));
}

/// Once a frame is unwrapped and the platform cooperates, the frame is
/// delivered. The texture of a supported format passes the crop and the tone
/// map, where they are asked for, and is read back from buffers that hold it;
/// the readback done, the call ends with the fresh frame, which is cached, and
/// the time before the first frame is over. Without a crop the frame has the
/// size of the texture, with a crop that of the region.
pub proof fn lemma_unwrapped_frame_is_delivered(
    m: CapturePipeline,
    crop: Option<ClientBox>,
    desc: TextureDesc,
    now_ns: u64,
)
    requires
        m.phase == (Phase::Describing { crop }),
        spec_color_format(desc.format_code) is Some,
    ensures
        ({
            let (unwrapped, first) = m.spec_advance(Event::Described(Some(desc)), now_ns);
            let (reading, last) = spec_through_color_stage(unwrapped, first, now_ns);
            let (end, verdict) = reading.spec_advance(Event::ReadBack(None), now_ns);
            let cut = crop is Some && crop->0.fits(desc.width, desc.height);
            &&& last is Readback || last == Action::Fail(CaptureError::PoolTooSmall)
            &&& last matches Action::Readback { frame, pool_frame_bytes, new_pool } ==> {
                &&& frame.timestamp == desc.timestamp
                &&& frame.width == (if cut {
                    crop->0.spec_width()
                } else {
                    desc.width as int
                })
                &&& frame.height == (if cut {
                    crop->0.spec_height()
                } else {
                    desc.height as int
                })
                &&& frame.format == spec_output_format(
                    spec_color_format(desc.format_code)->0,
                    m.policy,
                )
                &&& spec_frame_bytes(frame.width as nat, frame.height as nat, frame.format)
                    <= pool_frame_bytes
                &&& verdict is DeliverFresh
                &&& end.phase is Idle
                &&& end.has_cache
                &&& !end.first_call
            }
            &&& (first is Crop <==> cut)
        }),
{
}

/// A wait never outlasts its stage's timeout: on a clock that does not run
/// backwards, a wait begun at `begun_ns` asks the caller to block for no more
/// than is left of the timeout, one second at most, and when the timeout has
/// passed it asks for no more waiting.
pub proof fn lemma_wait_bounded(m: CapturePipeline, resolving: bool, begun_ns: u64, now_ns: u64)
    requires
        begun_ns <= now_ns,
    ensures
        ({
            let waiting = m.spec_begin_wait(resolving, begun_ns).0;
            let action = waiting.spec_advance(Event::Polled { got: false }, now_ns).1;
            let timeout_ms = if resolving {
                crate::pipeline::spec_resolve_timeout_ms(m.stage)
            } else {
                crate::pipeline::spec_acquire_timeout_ms(m.stage)
            };
            &&& timeout_ms <= crate::pipeline::FIRST_FRAME_TIMEOUT_MS
            &&& action matches Action::Wait { timeout_ms: ms } ==> ms <= timeout_ms && ms
                * crate::pipeline::NANOS_PER_MILLI <= begun_ns + timeout_ms
                * crate::pipeline::NANOS_PER_MILLI - now_ns
            &&& now_ns >= begun_ns + timeout_ms * crate::pipeline::NANOS_PER_MILLI ==> !(
            action is Wait)
        }),
{
    let timeout_ms = if resolving {
        crate::pipeline::spec_resolve_timeout_ms(m.stage)
    } else {
        crate::pipeline::spec_acquire_timeout_ms(m.stage)
    };
    let deadline = begun_ns + timeout_ms * crate::pipeline::NANOS_PER_MILLI;
    assert(timeout_ms == 50 || timeout_ms == 1000);
    if deadline > now_ns {
        let remaining = deadline - now_ns;
        assert(0 < remaining <= timeout_ms * 1_000_000);
        assert(remaining / 1_000_000 <= timeout_ms);
        assert((remaining / 1_000_000) * 1_000_000 <= remaining);
    }
}

} // verus!
