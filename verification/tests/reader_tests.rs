use hdrcapture::color::ColorPixelFormat;
use hdrcapture::error::CaptureError;
use hdrcapture::reader::{mapped_span, strip_row_pitch, TextureReader};
use hdrcapture::texture::{
    color_format, dxgi_format, TextureCache, TextureShape, DXGI_FORMAT_B8G8R8A8_UNORM,
    DXGI_FORMAT_R16G16B16A16_FLOAT,
};
use hdrcapture::tonemap::{thread_groups, ToneMapPass};

fn red_rows(row_pitch: usize) -> Vec<u8> {
    // 2x2 half-float texture, every pixel (1.0, 0.0, 0.0, 1.0); 1.0 is 0x3C00.
    let pixel_red: [u16; 4] = [0x3C00, 0x0000, 0x0000, 0x3C00];
    let mut mapped = vec![0xEEu8; row_pitch * 2];
    for y in 0..2 {
        for x in 0..2 {
            for (c, value) in pixel_red.iter().enumerate() {
                let at = y * row_pitch + x * 8 + c * 2;
                mapped[at..at + 2].copy_from_slice(&value.to_le_bytes());
            }
        }
    }
    mapped
}

#[test]
fn test_texture_readback_row_stripped() {
    let mapped = red_rows(256);
    let mut data = vec![0u8; 32];
    let written = strip_row_pitch(&mapped, 256, 2, 2, ColorPixelFormat::Rgba16f, &mut data);

    // After stripping padding, data size should be exactly 2 x 2 x 8 = 32 bytes
    assert_eq!(written, Ok(32));
    assert_eq!(data.len(), 32, "Stripped buffer should be exactly 32 bytes");

    let u16_data: Vec<u16> =
        data.chunks(2).map(|pair| u16::from_le_bytes([pair[0], pair[1]])).collect();
    // Verify first pixel
    assert_eq!(u16_data[0], 0x3C00); // R
    assert_eq!(u16_data[1], 0x0000); // G
    assert_eq!(u16_data[2], 0x0000); // B
    assert_eq!(u16_data[3], 0x3C00); // A

    // Verify first pixel of second row (offset = row_bytes = 16 bytes = 8 u16)
    assert_eq!(u16_data[8], 0x3C00); // R
    assert_eq!(u16_data[9], 0x0000); // G
}

#[test]
fn test_strip_copies_each_row_from_its_pitch() {
    // 3 pixels wide, 2 rows, 4 bytes per pixel, rows 16 bytes apart.
    let mut mapped = vec![0u8; 32];
    for (i, byte) in mapped.iter_mut().enumerate() {
        *byte = i as u8;
    }
    let mut dest = vec![0xAAu8; 30];
    let written = strip_row_pitch(&mapped, 16, 3, 2, ColorPixelFormat::Bgra8, &mut dest);
    assert_eq!(written, Ok(24));
    let mut expected: Vec<u8> = (0u8..12).collect();
    expected.extend(16u8..28);
    assert_eq!(&dest[..24], expected.as_slice());
    // Bytes behind the frame are untouched.
    assert_eq!(&dest[24..], &[0xAA; 6]);
}

#[test]
fn test_strip_without_padding_is_a_copy() {
    let mapped: Vec<u8> = (0u8..16).collect();
    let mut dest = vec![0u8; 16];
    assert_eq!(strip_row_pitch(&mapped, 8, 2, 2, ColorPixelFormat::Bgra8, &mut dest), Ok(16));
    assert_eq!(dest, mapped);
}

#[test]
fn test_strip_last_row_needs_no_padding() {
    // The mapping ends right behind the last row's pixels.
    let mapped = vec![5u8; 16 + 8];
    let mut dest = vec![0u8; 16];
    assert_eq!(strip_row_pitch(&mapped, 16, 2, 2, ColorPixelFormat::Bgra8, &mut dest), Ok(16));
    assert_eq!(dest, vec![5u8; 16]);
}

#[test]
fn test_strip_rejects_small_destination() {
    let mapped = red_rows(16);
    let mut dest = vec![1u8; 31];
    let written = strip_row_pitch(&mapped, 16, 2, 2, ColorPixelFormat::Rgba16f, &mut dest);
    assert_eq!(written, Err(CaptureError::PoolTooSmall));
    assert_eq!(dest, vec![1u8; 31]);
}

#[test]
fn test_strip_rejects_short_mapping() {
    let mapped = vec![0u8; 23];
    let mut dest = vec![1u8; 16];
    let written = strip_row_pitch(&mapped, 16, 2, 2, ColorPixelFormat::Bgra8, &mut dest);
    assert_eq!(written, Err(CaptureError::Platform));
    assert_eq!(dest, vec![1u8; 16]);
}

#[test]
fn test_strip_empty_frame() {
    let mapped: Vec<u8> = Vec::new();
    let mut dest = vec![3u8; 4];
    assert_eq!(strip_row_pitch(&mapped, 0, 0, 7, ColorPixelFormat::Bgra8, &mut dest), Ok(0));
    assert_eq!(strip_row_pitch(&mapped, 64, 7, 0, ColorPixelFormat::Rgba16f, &mut dest), Ok(0));
    assert_eq!(dest, vec![3u8; 4]);
}

#[test]
fn test_strip_frame_too_large_for_memory() {
    let mapped: Vec<u8> = Vec::new();
    let mut dest = vec![0u8; 4];
    let written =
        strip_row_pitch(&mapped, 0, u32::MAX, u32::MAX, ColorPixelFormat::Rgba16f, &mut dest);
    assert_eq!(written, Err(CaptureError::PoolTooSmall));
}

#[test]
fn test_format_codes() {
    assert_eq!(DXGI_FORMAT_B8G8R8A8_UNORM, 87);
    assert_eq!(DXGI_FORMAT_R16G16B16A16_FLOAT, 10);
    assert_eq!(color_format(87), Some(ColorPixelFormat::Bgra8));
    assert_eq!(color_format(10), Some(ColorPixelFormat::Rgba16f));
    assert_eq!(color_format(0), None);
    assert_eq!(color_format(28), None);
    assert_eq!(dxgi_format(ColorPixelFormat::Bgra8), 87);
    assert_eq!(dxgi_format(ColorPixelFormat::Rgba16f), 10);
}

#[test]
fn test_texture_cache_hits_only_the_same_shape() {
    let shape = TextureShape { width: 640, height: 480, format: ColorPixelFormat::Bgra8 };
    let mut cache = TextureCache::new();
    assert!(!cache.holds(shape));
    cache.store(shape);
    assert!(cache.holds(shape));
    assert!(!cache.holds(TextureShape { width: 641, ..shape }));
    assert!(!cache.holds(TextureShape { height: 481, ..shape }));
    assert!(!cache.holds(TextureShape { format: ColorPixelFormat::Rgba16f, ..shape }));
}

#[test]
fn test_reader_rebuilds_staging_on_change() {
    let shape = TextureShape { width: 2, height: 2, format: ColorPixelFormat::Rgba16f };
    let mut reader = TextureReader::new();
    assert!(reader.needs_staging(shape));
    reader.staging_built(shape);
    assert!(!reader.needs_staging(shape));
    assert!(reader.needs_staging(TextureShape { width: 3, ..shape }));
}

#[test]
fn test_thread_groups_round_up() {
    assert_eq!(thread_groups(0), 0);
    assert_eq!(thread_groups(1), 1);
    assert_eq!(thread_groups(8), 1);
    assert_eq!(thread_groups(9), 2);
    assert_eq!(thread_groups(64), 8);
    assert_eq!(thread_groups(1920), 240);
    assert_eq!(thread_groups(1080), 135);
    assert_eq!(thread_groups(1081), 136);
    assert_eq!(thread_groups(u32::MAX), 536_870_912);
}

#[test]
fn test_tone_map_plan() {
    let mut pass = ToneMapPass::new();
    let first = pass.plan(64, 64);
    assert!(first.rebuild_output);
    assert_eq!((first.groups_x, first.groups_y), (8, 8));
    pass.output_built(64, 64);
    assert!(!pass.plan(64, 64).rebuild_output);
    let other = pass.plan(100, 30);
    assert!(other.rebuild_output);
    assert_eq!((other.groups_x, other.groups_y), (13, 4));
}

#[test]
fn test_mapped_span() {
    assert_eq!(mapped_span(256, 2, 2, ColorPixelFormat::Rgba16f), Some(256 + 16));
    assert_eq!(mapped_span(16, 3, 2, ColorPixelFormat::Bgra8), Some(28));
    assert_eq!(mapped_span(16, 3, 1, ColorPixelFormat::Bgra8), Some(12));
    assert_eq!(mapped_span(16, 0, 5, ColorPixelFormat::Bgra8), Some(0));
    assert_eq!(mapped_span(16, 5, 0, ColorPixelFormat::Bgra8), Some(0));
    assert_eq!(mapped_span(usize::MAX, 1, 3, ColorPixelFormat::Bgra8), None);
    assert_eq!(mapped_span(usize::MAX - 4, 1, 2, ColorPixelFormat::Bgra8), Some(usize::MAX));
    assert_eq!(mapped_span(usize::MAX - 3, 1, 2, ColorPixelFormat::Bgra8), None);
}

#[test]
fn test_strip_succeeds_whatever_the_row_pitch() {
    for row_pitch in [16usize, 32, 48, 256, 4096] {
        let mapped = red_rows(row_pitch);
        let mut data = vec![0u8; 32];
        let written = strip_row_pitch(&mapped, row_pitch, 2, 2, ColorPixelFormat::Rgba16f, &mut data);
        assert_eq!(written, Ok(32), "row pitch {}", row_pitch);
        // Row 1 starts at byte 16.
        assert_eq!(&data[16..18], &[0x00, 0x3C]);
        assert_eq!(&data[..16], &data[16..]);
        assert!(!data.contains(&0xEE));
    }
}
