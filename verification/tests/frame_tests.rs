use hdrcapture::color::{
    bytes_per_pixel, frame_bytes, output_format, requires_processing, ColorPixelFormat,
};
use hdrcapture::frame::{seal_frame, SharedFrameData};
use hdrcapture::policy::{mode_mismatch, pool_format, CapturePolicy, ModeMismatch};
use hdrcapture::pool::ElasticBufferPool;

#[test]
fn test_from_mode_known_strings() {
    assert_eq!(CapturePolicy::from_mode("auto"), Some(CapturePolicy::Auto));
    assert_eq!(CapturePolicy::from_mode("hdr"), Some(CapturePolicy::Hdr));
    assert_eq!(CapturePolicy::from_mode("sdr"), Some(CapturePolicy::Sdr));
}

#[test]
fn test_from_mode_unknown_strings() {
    assert_eq!(CapturePolicy::from_mode(""), None);
    assert_eq!(CapturePolicy::from_mode("AUTO"), None);
    assert_eq!(CapturePolicy::from_mode("auto "), None);
    assert_eq!(CapturePolicy::from_mode("hd"), None);
    assert_eq!(CapturePolicy::from_mode("sdx"), None);
    assert_eq!(CapturePolicy::from_mode("hdr10"), None);
    assert_eq!(CapturePolicy::from_mode("aut\u{f6}"), None);
}

#[test]
fn test_default_policy_is_auto() {
    assert_eq!(CapturePolicy::default(), CapturePolicy::Auto);
}

#[test]
fn test_pool_format_table() {
    assert_eq!(pool_format(CapturePolicy::Sdr, false), ColorPixelFormat::Bgra8);
    assert_eq!(pool_format(CapturePolicy::Sdr, true), ColorPixelFormat::Bgra8);
    assert_eq!(pool_format(CapturePolicy::Hdr, false), ColorPixelFormat::Rgba16f);
    assert_eq!(pool_format(CapturePolicy::Hdr, true), ColorPixelFormat::Rgba16f);
    assert_eq!(pool_format(CapturePolicy::Auto, false), ColorPixelFormat::Bgra8);
    assert_eq!(pool_format(CapturePolicy::Auto, true), ColorPixelFormat::Rgba16f);
}

#[test]
fn test_delivered_format_per_policy() {
    for hdr in [false, true] {
        let auto = pool_format(CapturePolicy::Auto, hdr);
        assert_eq!(output_format(auto, CapturePolicy::Auto), ColorPixelFormat::Bgra8);
        let sdr = pool_format(CapturePolicy::Sdr, hdr);
        assert_eq!(output_format(sdr, CapturePolicy::Sdr), ColorPixelFormat::Bgra8);
        let full = pool_format(CapturePolicy::Hdr, hdr);
        assert_eq!(output_format(full, CapturePolicy::Hdr), ColorPixelFormat::Rgba16f);
    }
}

#[test]
fn test_requires_processing_only_for_auto_on_float() {
    assert!(requires_processing(ColorPixelFormat::Rgba16f, CapturePolicy::Auto));
    assert!(!requires_processing(ColorPixelFormat::Bgra8, CapturePolicy::Auto));
    assert!(!requires_processing(ColorPixelFormat::Rgba16f, CapturePolicy::Hdr));
    assert!(!requires_processing(ColorPixelFormat::Bgra8, CapturePolicy::Hdr));
    assert!(!requires_processing(ColorPixelFormat::Rgba16f, CapturePolicy::Sdr));
    assert!(!requires_processing(ColorPixelFormat::Bgra8, CapturePolicy::Sdr));
}

#[test]
fn test_bytes_per_pixel_values() {
    assert_eq!(bytes_per_pixel(ColorPixelFormat::Bgra8), 4);
    assert_eq!(bytes_per_pixel(ColorPixelFormat::Rgba16f), 8);
}

#[test]
fn test_frame_bytes_values() {
    assert_eq!(frame_bytes(1920, 1080, ColorPixelFormat::Bgra8), Some(8_294_400));
    assert_eq!(frame_bytes(1920, 1080, ColorPixelFormat::Rgba16f), Some(16_588_800));
    assert_eq!(frame_bytes(0, 1080, ColorPixelFormat::Rgba16f), Some(0));
    assert_eq!(frame_bytes(3, 5, ColorPixelFormat::Bgra8), Some(60));
}

#[test]
fn test_frame_bytes_too_large() {
    assert_eq!(frame_bytes(u32::MAX, u32::MAX, ColorPixelFormat::Rgba16f), None);
    assert_eq!(frame_bytes(u32::MAX, u32::MAX, ColorPixelFormat::Bgra8), None);
}

#[test]
fn test_shared_frame_data_accessors() {
    let data = SharedFrameData::new(vec![1, 2, 3], 4);
    assert_eq!(data.as_slice(), &[1, 2, 3]);
    assert_eq!(data.len(), 3);
    assert!(!data.is_empty());
    assert_eq!(data.group_idx(), 4);
    assert_eq!(data.into_parts(), (vec![1, 2, 3], 4));
    assert!(SharedFrameData::new(Vec::new(), 0).is_empty());
}

#[test]
fn test_seal_frame_has_exact_length() {
    let mut pool = ElasticBufferPool::new(100);
    let mut buffer = pool.acquire();
    buffer.as_mut_slice()[0] = 9;
    let frame = seal_frame(buffer, 96, 4, 3, 1_234_567, ColorPixelFormat::Rgba16f)
        .ok()
        .expect("frame fits");
    assert_eq!(frame.data.len(), 96);
    assert_eq!(frame.data.len(), frame.width as usize * frame.height as usize * frame.bytes_per_pixel());
    assert_eq!(frame.data.as_slice()[0], 9);
    assert_eq!(frame.width, 4);
    assert_eq!(frame.height, 3);
    assert_eq!(frame.timestamp, 1_234_567);
    assert_eq!(frame.format, ColorPixelFormat::Rgba16f);
    assert_eq!(frame.bytes_per_pixel(), 8);
}

#[test]
fn test_seal_frame_rejects_wrong_length() {
    let mut pool = ElasticBufferPool::new(100);
    let buffer = pool.acquire();
    let short = seal_frame(buffer, 95, 4, 3, 0, ColorPixelFormat::Rgba16f);
    // The buffer comes back whole, to be released.
    let buffer = match short {
        Err(buffer) => buffer,
        Ok(_) => panic!("95 bytes are no 4x3 frame"),
    };
    assert_eq!(buffer.as_slice().len(), 100);
    let large = seal_frame(buffer, 128, 4, 4, 0, ColorPixelFormat::Rgba16f);
    let buffer = match large {
        Err(buffer) => buffer,
        Ok(_) => panic!("the buffer holds no 4x4 frame"),
    };
    let free = pool.stats().free_frames;
    pool.release(buffer);
    assert_eq!(pool.stats().free_frames, free + 1);
}

#[test]
fn test_dropping_a_frame_frees_one_buffer_of_its_group() {
    let mut pool = ElasticBufferPool::new(16);
    let buffer = pool.acquire();
    let frame = seal_frame(buffer, 16, 2, 2, 0, ColorPixelFormat::Bgra8).ok().expect("fits");
    let free_before = pool.stats().free_frames;
    let (bytes, group_idx) = frame.data.into_parts();
    assert!(pool.lends_from(group_idx));
    pool.release_inner(group_idx, bytes);
    assert_eq!(pool.stats().free_frames, free_before + 1);
}

#[test]
fn test_can_acquire_on_a_new_pool() {
    let pool = ElasticBufferPool::new(1);
    assert!(pool.can_acquire());
}

#[test]
fn test_mode_mismatch() {
    assert_eq!(mode_mismatch(CapturePolicy::Hdr, false), Some(ModeMismatch::HdrOnSdrDisplay));
    assert_eq!(mode_mismatch(CapturePolicy::Sdr, true), Some(ModeMismatch::SdrOnHdrDisplay));
    assert_eq!(mode_mismatch(CapturePolicy::Hdr, true), None);
    assert_eq!(mode_mismatch(CapturePolicy::Sdr, false), None);
    assert_eq!(mode_mismatch(CapturePolicy::Auto, true), None);
    assert_eq!(mode_mismatch(CapturePolicy::Auto, false), None);
}
