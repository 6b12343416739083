use linux_camera::fourcc::{FOURCC_MJPEG, FOURCC_NV12, FOURCC_YU12, FOURCC_YUYV};
use linux_camera::video::{pixel_format_of, select_fourcc, video_format_of, CompressionFormat, PixelFormat, VideoFormat};
use x_media::video as media;

fn expected_fourcc(code: u32) -> Option<u32> {
    match media::VideoFormat::try_from(code) {
        Ok(media::VideoFormat::Pixel(media::PixelFormat::NV12)) => Some(FOURCC_NV12),
        Ok(media::VideoFormat::Pixel(media::PixelFormat::YUYV)) => Some(FOURCC_YUYV),
        Ok(media::VideoFormat::Pixel(media::PixelFormat::YV12)) => Some(FOURCC_YU12),
        Ok(media::VideoFormat::Compression(media::CompressionFormat::MJPEG)) => Some(FOURCC_MJPEG),
        Ok(_) => None,
        Err(()) => Some(FOURCC_YUYV),
    }
}

#[test]
fn every_code_selects_as_the_media_tables_say() {
    for code in 0..0x2_0000u32 {
        assert_eq!(select_fourcc(Some(code)), expected_fourcc(code), "code {code:#x}");
    }
    for code in [0x8000_0000u32, 0x8000_8000, 0xffff_0009, 0xffff_ffff, 0x1234_8000, 0x1234_0012] {
        assert_eq!(select_fourcc(Some(code)), expected_fourcc(code), "code {code:#x}");
    }
}

#[test]
fn selected_codes_have_exact_values() {
    assert_eq!(select_fourcc(Some(9)), Some(0x3231564e));
    assert_eq!(select_fourcc(Some(15)), Some(0x32315559));
    assert_eq!(select_fourcc(Some(18)), Some(0x56595559));
    assert_eq!(select_fourcc(Some(0x8000)), Some(0x47504a4d));
}

#[test]
fn yuyv_is_the_default() {
    assert_eq!(select_fourcc(None), Some(FOURCC_YUYV));
    assert_eq!(select_fourcc(Some(48)), Some(FOURCC_YUYV));
    assert_eq!(select_fourcc(Some(0x8001)), Some(FOURCC_YUYV));
}

#[test]
fn known_formats_without_a_code_are_not_selected() {
    assert_eq!(select_fourcc(Some(0)), None);
    assert_eq!(select_fourcc(Some(6)), None);
    assert_eq!(select_fourcc(Some(47)), None);
}

#[test]
fn only_the_low_byte_and_the_mask_count() {
    assert_eq!(select_fourcc(Some(0x0109)), Some(FOURCC_NV12));
    assert_eq!(select_fourcc(Some(0x1_8000)), Some(FOURCC_MJPEG));
}

#[test]
fn camera_codes_are_looked_up() {
    assert_eq!(video_format_of(FOURCC_MJPEG), Some(VideoFormat::Compression(CompressionFormat::MJPEG)));
    assert_eq!(video_format_of(FOURCC_YUYV), Some(VideoFormat::Pixel(PixelFormat::YUYV)));
    assert_eq!(video_format_of(FOURCC_YU12), Some(VideoFormat::Pixel(PixelFormat::YV12)));
    assert_eq!(video_format_of(FOURCC_NV12), Some(VideoFormat::Pixel(PixelFormat::NV12)));
    assert_eq!(video_format_of(0), None);
    assert_eq!(video_format_of(u32::from_le_bytes([b'N', b'V', b'2', b'1'])), None);
}

#[test]
fn compressed_streams_deliver_no_pixels() {
    assert_eq!(pixel_format_of(FOURCC_NV12), Some(PixelFormat::NV12));
    assert_eq!(pixel_format_of(FOURCC_YU12), Some(PixelFormat::YV12));
    assert_eq!(pixel_format_of(FOURCC_YUYV), Some(PixelFormat::YUYV));
    assert_eq!(pixel_format_of(FOURCC_MJPEG), None);
    assert_eq!(pixel_format_of(1), None);
}
