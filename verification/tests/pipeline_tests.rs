use hdrcapture::color::ColorPixelFormat;
use hdrcapture::error::CaptureError;
use hdrcapture::geometry::{ClientBox, Point, Rect, WindowProbe};
use hdrcapture::pipeline::{
    resize_target, CapturePipeline, Phase, FIRST_FRAME_TIMEOUT_MS, FRESH_FRAME_TIMEOUT_MS,
    RESIZE_RETRY_LIMIT,
};
use hdrcapture::pipeline_types::{
    Action, Event, Observation, RawFrameInfo, Slot, Stage, TextureDesc,
};
use hdrcapture::policy::CapturePolicy;
use hdrcapture::target::CaptureTarget;

const MS: u64 = 1_000_000;
const BGRA: u32 = 87;
const HALF: u32 = 10;

fn monitor_pipeline(policy: CapturePolicy, hdr: bool) -> CapturePipeline {
    CapturePipeline::new(policy, hdr, CaptureTarget::Monitor(0x10001), false, 1920, 1080)
}

fn window_pipeline(headless: bool) -> CapturePipeline {
    CapturePipeline::new(CapturePolicy::Sdr, false, CaptureTarget::Window(0x50a2), headless, 816, 639)
}

fn same_size() -> Event {
    Event::Inspected(Observation::Monitor { width: 1920, height: 1080 })
}

fn desc(width: u32, height: u32, format_code: u32) -> Event {
    Event::Described(Some(TextureDesc { width, height, format_code, timestamp: 77 }))
}

fn probe() -> WindowProbe {
    WindowProbe {
        minimized: false,
        client_rect: Some(Rect { left: 0, top: 0, right: 800, bottom: 600 }),
        frame_bounds: Some(Rect { left: 100, top: 50, right: 916, bottom: 689 }),
        client_origin: Some(Point { x: 108, y: 81 }),
    }
}

/// Runs a whole first call on a monitor whose size does not change.
fn deliver_first(p: &mut CapturePipeline, format_code: u32, tone_mapped: bool) -> Action {
    assert_eq!(p.capture(0), Action::Poll { into: Slot::Current });
    assert_eq!(p.advance(Event::Polled { got: true }, 0), Action::Inspect { slot: Slot::Current });
    assert_eq!(p.advance(same_size(), 0), Action::Describe { slot: Slot::Current });
    let mut action = p.advance(desc(1920, 1080, format_code), 0);
    if tone_mapped {
        assert_eq!(action, Action::ToneMap { width: 1920, height: 1080 });
        action = p.advance(Event::ToneMapped { ok: true }, 0);
    }
    action
}

#[test]
fn test_constants_of_the_pipeline() {
    assert_eq!(FIRST_FRAME_TIMEOUT_MS, 1000);
    assert_eq!(FRESH_FRAME_TIMEOUT_MS, 50);
    assert_eq!(RESIZE_RETRY_LIMIT, 3);
}

#[test]
fn test_new_pipeline() {
    let p = monitor_pipeline(CapturePolicy::Auto, true);
    assert!(p.is_hdr());
    assert!(p.is_idle());
    assert!(p.first_call && !p.has_cache && !p.force_fresh);
    assert_eq!(p.pool_size(), (1920, 1080));
    assert_eq!(p.output_frame_bytes, 1920 * 1080 * 4);
    assert_eq!(monitor_pipeline(CapturePolicy::Sdr, true).output_frame_bytes, 1920 * 1080 * 4);
    assert_eq!(monitor_pipeline(CapturePolicy::Hdr, false).output_frame_bytes, 1920 * 1080 * 8);
    assert!(!monitor_pipeline(CapturePolicy::Hdr, false).is_hdr());
    assert!(!p.window_target);
    assert!(window_pipeline(true).window_target);
}

#[test]
fn test_sdr_monitor_first_capture_delivers_bgra8() {
    let mut p = monitor_pipeline(CapturePolicy::Sdr, false);
    let action = deliver_first(&mut p, BGRA, false);
    let frame = RawFrameInfo {
        width: 1920,
        height: 1080,
        timestamp: 77,
        format: ColorPixelFormat::Bgra8,
    };
    assert_eq!(
        action,
        Action::Readback { frame, pool_frame_bytes: 4 * 1920 * 1080, new_pool: false }
    );
    assert_eq!(p.advance(Event::ReadBack(None), 0), Action::DeliverFresh);
    assert!(p.is_idle());
    assert!(p.has_cache && !p.first_call);
}

#[test]
fn test_auto_on_sdr_display_delivers_bgra8_without_tone_map() {
    let mut p = monitor_pipeline(CapturePolicy::Auto, false);
    match deliver_first(&mut p, BGRA, false) {
        Action::Readback { frame, .. } => assert_eq!(frame.format, ColorPixelFormat::Bgra8),
        other => panic!("unexpected {:?}", other),
    }
}

#[test]
fn test_auto_on_hdr_display_tone_maps_to_bgra8() {
    let mut p = monitor_pipeline(CapturePolicy::Auto, true);
    match deliver_first(&mut p, HALF, true) {
        Action::Readback { frame, pool_frame_bytes, new_pool } => {
            assert_eq!(frame.format, ColorPixelFormat::Bgra8);
            assert_eq!((frame.width, frame.height, frame.timestamp), (1920, 1080, 77));
            assert_eq!(pool_frame_bytes, 4 * 1920 * 1080);
            assert!(!new_pool);
        }
        other => panic!("unexpected {:?}", other),
    }
    assert_eq!(p.advance(Event::ReadBack(None), 0), Action::DeliverFresh);
}

#[test]
fn test_hdr_policy_delivers_rgba16f() {
    for hdr in [false, true] {
        let mut p = monitor_pipeline(CapturePolicy::Hdr, hdr);
        match deliver_first(&mut p, HALF, false) {
            Action::Readback { frame, pool_frame_bytes, new_pool } => {
                assert_eq!(frame.format, ColorPixelFormat::Rgba16f);
                assert_eq!(pool_frame_bytes, 8 * 1920 * 1080);
                assert!(!new_pool);
            }
            other => panic!("unexpected {:?}", other),
        }
    }
}

#[test]
fn test_tone_map_failure_ends_the_call() {
    let mut p = monitor_pipeline(CapturePolicy::Auto, true);
    assert_eq!(p.capture(0), Action::Poll { into: Slot::Current });
    p.advance(Event::Polled { got: true }, 0);
    p.advance(same_size(), 0);
    assert_eq!(p.advance(desc(1920, 1080, HALF), 0), Action::ToneMap { width: 1920, height: 1080 });
    assert_eq!(
        p.advance(Event::ToneMapped { ok: false }, 0),
        Action::Fail(CaptureError::Platform)
    );
    assert!(p.is_idle() && p.first_call && !p.has_cache);
}

#[test]
fn test_unsupported_format_fails() {
    let mut p = monitor_pipeline(CapturePolicy::Sdr, false);
    p.capture(0);
    p.advance(Event::Polled { got: true }, 0);
    p.advance(same_size(), 0);
    assert_eq!(
        p.advance(desc(1920, 1080, 28), 0),
        Action::Fail(CaptureError::UnsupportedFormat)
    );
    assert!(p.is_idle());
}

#[test]
fn test_readback_error_is_passed_on() {
    let mut p = monitor_pipeline(CapturePolicy::Sdr, false);
    deliver_first(&mut p, BGRA, false);
    assert_eq!(
        p.advance(Event::ReadBack(Some(CaptureError::PoolTooSmall)), 0),
        Action::Fail(CaptureError::PoolTooSmall)
    );
    assert!(p.is_idle() && p.first_call && !p.has_cache);
}

#[test]
fn test_larger_frame_gets_a_new_pool() {
    let mut p = monitor_pipeline(CapturePolicy::Sdr, false);
    p.capture(0);
    p.advance(Event::Polled { got: true }, 0);
    p.advance(same_size(), 0);
    match p.advance(desc(2560, 1440, BGRA), 0) {
        Action::Readback { frame, pool_frame_bytes, new_pool } => {
            assert_eq!((frame.width, frame.height), (2560, 1440));
            assert_eq!(pool_frame_bytes, 4 * 2560 * 1440);
            assert!(new_pool);
        }
        other => panic!("unexpected {:?}", other),
    }
    assert_eq!(p.output_frame_bytes, 4 * 2560 * 1440);
    p.advance(Event::ReadBack(None), 0);
    // A smaller frame keeps the larger pool.
    p.capture(0);
    p.advance(Event::Polled { got: true }, 0);
    p.advance(Event::Polled { got: false }, 0);
    p.advance(Event::Polled { got: true }, 0);
    p.advance(same_size(), 0);
    match p.advance(desc(1920, 1080, BGRA), 0) {
        Action::Readback { pool_frame_bytes, new_pool, .. } => {
            assert_eq!(pool_frame_bytes, 4 * 2560 * 1440);
            assert!(!new_pool);
        }
        other => panic!("unexpected {:?}", other),
    }
}

#[test]
fn test_first_call_times_out_after_one_second() {
    let mut p = monitor_pipeline(CapturePolicy::Sdr, false);
    assert_eq!(p.capture(5 * MS), Action::Poll { into: Slot::Current });
    assert_eq!(p.stage, Stage::First);
    assert_eq!(
        p.advance(Event::Polled { got: false }, 5 * MS),
        Action::Wait { timeout_ms: 1000 }
    );
    // Woken, but the pool is still empty: wait for what is left.
    assert_eq!(
        p.advance(Event::Waited { signaled: true }, 405 * MS),
        Action::Poll { into: Slot::Current }
    );
    assert_eq!(
        p.advance(Event::Polled { got: false }, 405 * MS + 1),
        Action::Wait { timeout_ms: 599 }
    );
    assert_eq!(
        p.advance(Event::Waited { signaled: false }, 1005 * MS),
        Action::Fail(CaptureError::Timeout)
    );
    assert!(p.is_idle());
    // No frame was delivered: the next call is a first call again.
    assert!(p.first_call);
}

#[test]
fn test_wait_ends_when_deadline_has_passed_at_the_poll() {
    let mut p = monitor_pipeline(CapturePolicy::Sdr, false);
    p.capture(0);
    assert_eq!(
        p.advance(Event::Polled { got: false }, 1000 * MS),
        Action::Fail(CaptureError::Timeout)
    );
    let mut q = monitor_pipeline(CapturePolicy::Sdr, false);
    q.capture(0);
    // Less than a millisecond left: a wait of zero milliseconds.
    assert_eq!(
        q.advance(Event::Polled { got: false }, 1000 * MS - 1),
        Action::Wait { timeout_ms: 0 }
    );
}

fn delivered(policy: CapturePolicy) -> CapturePipeline {
    let mut p = monitor_pipeline(policy, false);
    deliver_first(&mut p, BGRA, false);
    assert_eq!(p.advance(Event::ReadBack(None), 0), Action::DeliverFresh);
    p
}

#[test]
fn test_static_screen_returns_cached_frame() {
    let mut p = delivered(CapturePolicy::Sdr);
    let before = p;
    assert_eq!(p.capture(10 * MS), Action::Poll { into: Slot::Kept });
    assert_eq!(
        p.advance(Event::Polled { got: false }, 10 * MS),
        Action::Poll { into: Slot::Current }
    );
    assert_eq!(p.stage, Stage::Fresh);
    assert_eq!(
        p.advance(Event::Polled { got: false }, 11 * MS),
        Action::Wait { timeout_ms: 49 }
    );
    assert_eq!(p.advance(Event::Waited { signaled: false }, 60 * MS), Action::DeliverCached);
    assert!(p.is_idle());
    assert!(p.has_cache);
    assert_eq!(p.output_frame_bytes, before.output_frame_bytes);
    assert_eq!(p.pool_size(), before.pool_size());
}

#[test]
fn test_static_screen_grab_returns_cached_frame() {
    let mut p = delivered(CapturePolicy::Sdr);
    assert_eq!(p.grab(0), Action::Poll { into: Slot::Kept });
    assert_eq!(p.advance(Event::Polled { got: false }, 0), Action::Poll { into: Slot::Current });
    assert_eq!(p.advance(Event::Polled { got: false }, 50 * MS), Action::DeliverCached);
}

#[test]
fn test_capture_prefers_fresh_frame_over_backlog() {
    let mut p = delivered(CapturePolicy::Sdr);
    assert_eq!(p.capture(0), Action::Poll { into: Slot::Kept });
    assert_eq!(p.advance(Event::Polled { got: true }, 0), Action::Poll { into: Slot::Kept });
    assert_eq!(p.advance(Event::Polled { got: true }, 0), Action::Poll { into: Slot::Kept });
    assert_eq!(p.advance(Event::Polled { got: false }, 0), Action::Poll { into: Slot::Current });
    assert_eq!(p.advance(Event::Polled { got: false }, 0), Action::Wait { timeout_ms: 50 });
    assert_eq!(
        p.advance(Event::Waited { signaled: true }, 16 * MS),
        Action::Poll { into: Slot::Current }
    );
    assert_eq!(
        p.advance(Event::Polled { got: true }, 16 * MS),
        Action::Inspect { slot: Slot::Current }
    );
    assert_eq!(p.advance(same_size(), 16 * MS), Action::Describe { slot: Slot::Current });
}

#[test]
fn test_capture_falls_back_to_last_backlog_frame() {
    let mut p = delivered(CapturePolicy::Sdr);
    p.capture(0);
    assert_eq!(p.advance(Event::Polled { got: true }, 0), Action::Poll { into: Slot::Kept });
    assert_eq!(p.advance(Event::Polled { got: false }, 0), Action::Poll { into: Slot::Current });
    // No fresh frame in time: the kept frame is resolved.
    assert_eq!(
        p.advance(Event::Polled { got: false }, 50 * MS),
        Action::Inspect { slot: Slot::Kept }
    );
    assert_eq!(p.stage, Stage::Fallback);
    assert_eq!(p.advance(same_size(), 50 * MS), Action::Describe { slot: Slot::Kept });
}

#[test]
fn test_grab_takes_last_backlog_frame_without_waiting() {
    let mut p = delivered(CapturePolicy::Sdr);
    assert_eq!(p.grab(0), Action::Poll { into: Slot::Kept });
    assert_eq!(p.advance(Event::Polled { got: true }, 0), Action::Poll { into: Slot::Kept });
    assert_eq!(p.advance(Event::Polled { got: false }, 0), Action::Inspect { slot: Slot::Kept });
    assert_eq!(p.stage, Stage::Latest);
    assert_eq!(p.advance(same_size(), 0), Action::Describe { slot: Slot::Kept });
    match p.advance(desc(1920, 1080, BGRA), 0) {
        Action::Readback { .. } => {}
        other => panic!("unexpected {:?}", other),
    }
    assert_eq!(p.advance(Event::ReadBack(None), 0), Action::DeliverFresh);
}

#[test]
fn test_no_cache_and_no_frame_blocks_then_times_out() {
    // A pipeline whose first call failed has no cache; say a frame was
    // delivered to another pipeline state by hand.
    let mut p = monitor_pipeline(CapturePolicy::Sdr, false);
    p.first_call = false;
    assert_eq!(p.capture(0), Action::Poll { into: Slot::Kept });
    assert_eq!(p.advance(Event::Polled { got: false }, 0), Action::Poll { into: Slot::Current });
    assert_eq!(p.advance(Event::Polled { got: false }, 0), Action::Wait { timeout_ms: 50 });
    // The short wait ran out, nothing is cached: the long wait begins.
    assert_eq!(
        p.advance(Event::Waited { signaled: false }, 50 * MS),
        Action::Poll { into: Slot::Current }
    );
    assert_eq!(p.stage, Stage::Blocking);
    assert_eq!(
        p.advance(Event::Polled { got: false }, 50 * MS),
        Action::Wait { timeout_ms: 1000 }
    );
    assert_eq!(
        p.advance(Event::Waited { signaled: false }, 1050 * MS),
        Action::Fail(CaptureError::Timeout)
    );
}

#[test]
fn test_resize_rebuilds_pool_and_discards_next_frame() {
    let mut p = delivered(CapturePolicy::Sdr);
    p.capture(0);
    p.advance(Event::Polled { got: false }, 0);
    assert_eq!(p.advance(Event::Polled { got: true }, 0), Action::Inspect { slot: Slot::Current });
    let resized = Event::Inspected(Observation::Monitor { width: 2560, height: 1440 });
    assert_eq!(p.advance(resized, 0), Action::Recreate { width: 2560, height: 1440 });
    assert_eq!(p.pool_size(), (1920, 1080));
    assert_eq!(
        p.advance(Event::Recreated { ok: true }, 0),
        Action::Poll { into: Slot::Current }
    );
    assert_eq!(p.pool_size(), (2560, 1440));
    // The next frame is likely stale: it is inspected, found fitting, and dropped.
    assert_eq!(p.advance(Event::Polled { got: true }, 0), Action::Inspect { slot: Slot::Current });
    assert_eq!(p.advance(resized, 0), Action::Poll { into: Slot::Current });
    // The frame after that is the one processed.
    assert_eq!(p.advance(Event::Polled { got: true }, 0), Action::Inspect { slot: Slot::Current });
    assert_eq!(p.advance(resized, 0), Action::Describe { slot: Slot::Current });
    // A capture does not arm the one-shot of grab.
    assert!(!p.force_fresh);
}

#[test]
fn test_zero_content_size_is_ignored() {
    let mut p = delivered(CapturePolicy::Sdr);
    p.capture(0);
    p.advance(Event::Polled { got: false }, 0);
    p.advance(Event::Polled { got: true }, 0);
    let zero = Event::Inspected(Observation::Monitor { width: 0, height: 1440 });
    assert_eq!(p.advance(zero, 0), Action::Describe { slot: Slot::Current });
}

#[test]
fn test_recreate_failure_ends_the_call() {
    let mut p = delivered(CapturePolicy::Sdr);
    p.capture(0);
    p.advance(Event::Polled { got: false }, 0);
    p.advance(Event::Polled { got: true }, 0);
    p.advance(Event::Inspected(Observation::Monitor { width: 800, height: 600 }), 0);
    assert_eq!(
        p.advance(Event::Recreated { ok: false }, 0),
        Action::Fail(CaptureError::Platform)
    );
    assert_eq!(p.pool_size(), (1920, 1080));
}

#[test]
fn test_content_size_failure_ends_the_call() {
    let mut p = delivered(CapturePolicy::Sdr);
    p.capture(0);
    p.advance(Event::Polled { got: false }, 0);
    p.advance(Event::Polled { got: true }, 0);
    assert_eq!(
        p.advance(Event::Inspected(Observation::Unavailable), 0),
        Action::Fail(CaptureError::Platform)
    );
}

fn resize_round(p: &mut CapturePipeline, width: u32, height: u32) -> Action {
    let seen = Event::Inspected(Observation::Monitor { width, height });
    assert_eq!(p.advance(seen, 0), Action::Recreate { width, height });
    assert_eq!(p.advance(Event::Recreated { ok: true }, 0), Action::Poll { into: Slot::Current });
    p.advance(Event::Polled { got: true }, 0)
}

#[test]
fn test_resize_three_times_returns_cached_frame() {
    let mut p = delivered(CapturePolicy::Sdr);
    p.capture(0);
    p.advance(Event::Polled { got: false }, 0);
    assert_eq!(p.advance(Event::Polled { got: true }, 0), Action::Inspect { slot: Slot::Current });
    assert_eq!(resize_round(&mut p, 1000, 700), Action::Inspect { slot: Slot::Current });
    assert_eq!(resize_round(&mut p, 1001, 700), Action::Inspect { slot: Slot::Current });
    assert_eq!(resize_round(&mut p, 1002, 700), Action::DeliverCached);
    assert!(p.is_idle());
    assert_eq!(p.pool_size(), (1002, 700));
}

#[test]
fn test_resize_three_times_without_cache_times_out_in_the_end() {
    let mut p = monitor_pipeline(CapturePolicy::Sdr, false);
    assert_eq!(p.capture(0), Action::Poll { into: Slot::Current });
    assert_eq!(p.advance(Event::Polled { got: true }, 0), Action::Inspect { slot: Slot::Current });
    resize_round(&mut p, 1000, 700);
    resize_round(&mut p, 1001, 700);
    // Nothing cached: the call goes on to its last stage and waits long.
    assert_eq!(resize_round(&mut p, 1002, 700), Action::Poll { into: Slot::Current });
    assert_eq!(p.stage, Stage::Blocking);
    assert_eq!(p.advance(Event::Polled { got: true }, 0), Action::Inspect { slot: Slot::Current });
    resize_round(&mut p, 1003, 700);
    resize_round(&mut p, 1004, 700);
    assert_eq!(resize_round(&mut p, 1005, 700), Action::Fail(CaptureError::Timeout));
    assert!(p.is_idle());
}

#[test]
fn test_no_frame_after_resize_returns_cached_frame() {
    let mut p = delivered(CapturePolicy::Sdr);
    p.capture(0);
    p.advance(Event::Polled { got: false }, 0);
    p.advance(Event::Polled { got: true }, 0);
    p.advance(Event::Inspected(Observation::Monitor { width: 800, height: 600 }), 0);
    assert_eq!(
        p.advance(Event::Recreated { ok: true }, 10 * MS),
        Action::Poll { into: Slot::Current }
    );
    assert_eq!(
        p.advance(Event::Polled { got: false }, 10 * MS),
        Action::Wait { timeout_ms: 50 }
    );
    assert_eq!(p.advance(Event::Waited { signaled: false }, 60 * MS), Action::DeliverCached);
}

#[test]
fn test_grab_arms_force_fresh_on_resize() {
    let mut p = delivered(CapturePolicy::Sdr);
    p.grab(0);
    p.advance(Event::Polled { got: true }, 0);
    assert_eq!(p.advance(Event::Polled { got: false }, 0), Action::Inspect { slot: Slot::Kept });
    resize_round(&mut p, 1000, 700);
    assert!(p.force_fresh);
    // The stale frame is dropped, the next one processed.
    let fits = Event::Inspected(Observation::Monitor { width: 1000, height: 700 });
    assert_eq!(p.advance(fits, 0), Action::Poll { into: Slot::Current });
    p.advance(Event::Polled { got: true }, 0);
    assert_eq!(p.advance(fits, 0), Action::Describe { slot: Slot::Current });
    p.advance(desc(1000, 700, BGRA), 0);
    assert_eq!(p.advance(Event::ReadBack(None), 0), Action::DeliverFresh);
    assert!(p.force_fresh);

    // The next grab waits for a fresh frame before it looks at the backlog.
    assert_eq!(p.grab(100 * MS), Action::Poll { into: Slot::Current });
    assert_eq!(p.stage, Stage::ForceFresh);
    assert!(!p.force_fresh);
    assert_eq!(
        p.advance(Event::Polled { got: false }, 100 * MS),
        Action::Wait { timeout_ms: 50 }
    );
    assert_eq!(p.advance(Event::Waited { signaled: false }, 150 * MS), Action::DeliverCached);

    // And the one after that is an ordinary grab again.
    assert_eq!(p.grab(200 * MS), Action::Poll { into: Slot::Kept });
}

#[test]
fn test_capture_ignores_force_fresh() {
    let mut p = delivered(CapturePolicy::Sdr);
    p.force_fresh = true;
    assert_eq!(p.capture(0), Action::Poll { into: Slot::Kept });
    assert!(p.force_fresh);
}

#[test]
fn test_window_frame_is_cropped_to_client_area() {
    let mut p = window_pipeline(true);
    assert_eq!(p.capture(0), Action::Poll { into: Slot::Current });
    p.advance(Event::Polled { got: true }, 0);
    assert_eq!(
        p.advance(Event::Inspected(Observation::Window(probe())), 0),
        Action::Describe { slot: Slot::Current }
    );
    let region = ClientBox { left: 8, top: 31, right: 808, bottom: 631 };
    assert_eq!(p.phase, Phase::Describing { crop: Some(region) });
    assert_eq!(
        p.advance(desc(816, 639, BGRA), 0),
        Action::Crop { region, format: ColorPixelFormat::Bgra8, rebuild: true }
    );
    // The frame has the size of the client rectangle, not of the decorated window.
    match p.advance(Event::Cropped { ok: true }, 0) {
        Action::Readback { frame, .. } => assert_eq!((frame.width, frame.height), (800, 600)),
        other => panic!("unexpected {:?}", other),
    }
    assert_eq!(p.advance(Event::ReadBack(None), 0), Action::DeliverFresh);

    // The crop texture is reused for the next frame of the same size.
    p.capture(0);
    p.advance(Event::Polled { got: true }, 0);
    p.advance(Event::Polled { got: false }, 0);
    p.advance(Event::Polled { got: true }, 0);
    p.advance(Event::Inspected(Observation::Window(probe())), 0);
    assert_eq!(
        p.advance(desc(816, 639, BGRA), 0),
        Action::Crop { region, format: ColorPixelFormat::Bgra8, rebuild: false }
    );
}

#[test]
fn test_window_without_headless_is_not_cropped() {
    let mut p = window_pipeline(false);
    p.capture(0);
    p.advance(Event::Polled { got: true }, 0);
    p.advance(Event::Inspected(Observation::Window(probe())), 0);
    assert_eq!(p.phase, Phase::Describing { crop: None });
    match p.advance(desc(816, 639, BGRA), 0) {
        Action::Readback { frame, .. } => assert_eq!((frame.width, frame.height), (816, 639)),
        other => panic!("unexpected {:?}", other),
    }
}

#[test]
fn test_minimized_window_skips_crop_and_delivers_raw_frame() {
    let mut p = window_pipeline(true);
    p.capture(0);
    p.advance(Event::Polled { got: true }, 0);
    let minimized = WindowProbe { minimized: true, ..probe() };
    assert_eq!(
        p.advance(Event::Inspected(Observation::Window(minimized)), 0),
        Action::Describe { slot: Slot::Current }
    );
    match p.advance(desc(816, 639, BGRA), 0) {
        Action::Readback { frame, .. } => assert_eq!((frame.width, frame.height), (816, 639)),
        other => panic!("unexpected {:?}", other),
    }
}

#[test]
fn test_crop_outside_texture_is_skipped() {
    let mut p = window_pipeline(true);
    p.capture(0);
    p.advance(Event::Polled { got: true }, 0);
    p.advance(Event::Inspected(Observation::Window(probe())), 0);
    // The texture turns out smaller than the box computed for the pool size.
    match p.advance(desc(700, 639, BGRA), 0) {
        Action::Readback { frame, .. } => assert_eq!((frame.width, frame.height), (700, 639)),
        other => panic!("unexpected {:?}", other),
    }
}

#[test]
fn test_crop_failure_ends_the_call() {
    let mut p = window_pipeline(true);
    p.capture(0);
    p.advance(Event::Polled { got: true }, 0);
    p.advance(Event::Inspected(Observation::Window(probe())), 0);
    p.advance(desc(816, 639, BGRA), 0);
    assert_eq!(p.advance(Event::Cropped { ok: false }, 0), Action::Fail(CaptureError::Platform));
    assert!(p.crop_cache.shape.is_none());
}

#[test]
fn test_window_resize_goes_by_frame_bounds() {
    let mut p = window_pipeline(true);
    p.capture(0);
    p.advance(Event::Polled { got: true }, 0);
    let wider = WindowProbe {
        frame_bounds: Some(Rect { left: 100, top: 50, right: 1016, bottom: 689 }),
        ..probe()
    };
    assert_eq!(
        p.advance(Event::Inspected(Observation::Window(wider)), 0),
        Action::Recreate { width: 916, height: 639 }
    );
}

#[test]
fn test_resize_target() {
    let monitor = Observation::Monitor { width: 10, height: 20 };
    assert_eq!(resize_target(false, &monitor, 10, 20), None);
    assert_eq!(resize_target(false, &monitor, 10, 21), Some((10, 20)));
    assert_eq!(resize_target(false, &monitor, 11, 20), Some((10, 20)));
    assert_eq!(resize_target(false, &Observation::Monitor { width: 0, height: 20 }, 1, 1), None);
    assert_eq!(resize_target(false, &Observation::Monitor { width: 10, height: 0 }, 1, 1), None);
    assert_eq!(resize_target(false, &Observation::Unavailable, 1, 1), None);
    let window = Observation::Window(probe());
    assert_eq!(resize_target(true, &window, 816, 639), None);
    assert_eq!(resize_target(true, &window, 800, 600), Some((816, 639)));
    let minimized = Observation::Window(WindowProbe { minimized: true, ..probe() });
    assert_eq!(resize_target(true, &minimized, 800, 600), None);
}

#[test]
fn test_expects_the_matching_event() {
    let mut p = monitor_pipeline(CapturePolicy::Sdr, false);
    assert!(!p.expects(&Event::Polled { got: true }));
    p.capture(0);
    assert!(p.expects(&Event::Polled { got: true }));
    assert!(!p.expects(&Event::Waited { signaled: true }));
    p.advance(Event::Polled { got: true }, 0);
    assert!(p.expects(&same_size()));
    assert!(p.expects(&Event::Inspected(Observation::Unavailable)));
    assert!(!p.expects(&Event::Inspected(Observation::Window(probe()))));
    assert!(!p.expects(&Event::Polled { got: true }));
    let mut w = window_pipeline(true);
    w.capture(0);
    w.advance(Event::Polled { got: true }, 0);
    assert!(w.expects(&Event::Inspected(Observation::Window(probe()))));
    assert!(!w.expects(&same_size()));
}

#[test]
fn test_event_out_of_step_ends_the_call() {
    let mut p = monitor_pipeline(CapturePolicy::Sdr, false);
    p.capture(0);
    assert_eq!(
        p.advance(Event::Waited { signaled: true }, 0),
        Action::Fail(CaptureError::Platform)
    );
    assert!(p.is_idle());
    assert!(p.first_call && !p.has_cache);
    // With no call under way every event is out of step.
    assert_eq!(p.advance(Event::Polled { got: true }, 0), Action::Fail(CaptureError::Platform));
    assert!(p.is_idle());
}

#[test]
fn test_frame_too_large_for_memory_fails() {
    let mut p = monitor_pipeline(CapturePolicy::Hdr, true);
    p.capture(0);
    p.advance(Event::Polled { got: true }, 0);
    p.advance(same_size(), 0);
    assert_eq!(
        p.advance(desc(u32::MAX, u32::MAX, HALF), 0),
        Action::Fail(CaptureError::PoolTooSmall)
    );
    assert!(p.is_idle());
    assert_eq!(p.output_frame_bytes, 8 * 1920 * 1080);
}
