use linux_camera::error::DeviceError;
use linux_camera::formats::{
    frame_intervals, list_formats, CameraFormat, ControlValue, FrameDurationLimits, FrameIntervals, Size,
};
use linux_camera::fourcc::{FOURCC_MJPEG, FOURCC_NV12, FOURCC_YU12, FOURCC_YUYV};
use linux_camera::settings::{plan_settings, read_settings, StreamSettings};
use x_media::video as media;
use x_variant::Variant;

fn size(width: u32, height: u32) -> Size {
    Size { width, height }
}

fn entry(format: u32, width: u32, height: u32) -> Variant {
    let mut entry = Variant::new_dict();
    entry["format"] = format.into();
    entry["width"] = width.into();
    entry["height"] = height.into();
    entry
}

fn code(format: media::VideoFormat) -> u32 {
    format.into()
}

#[test]
fn formats_are_listed_in_order() {
    let list = list_formats(&vec![
        CameraFormat { fourcc: FOURCC_MJPEG, sizes: vec![size(1920, 1080), size(640, 480)] },
        CameraFormat { fourcc: 0x1234, sizes: vec![size(8, 8)] },
        CameraFormat { fourcc: FOURCC_NV12, sizes: vec![] },
        CameraFormat { fourcc: FOURCC_YUYV, sizes: vec![size(320, 240)] },
        CameraFormat { fourcc: FOURCC_YU12, sizes: vec![size(2, 2)] },
        CameraFormat { fourcc: FOURCC_NV12, sizes: vec![size(4, 4)] },
    ]);
    let mut expected = Variant::new_array();
    let mjpeg = code(media::VideoFormat::Compression(media::CompressionFormat::MJPEG));
    expected.array_add(entry(mjpeg, 1920, 1080));
    expected.array_add(entry(mjpeg, 640, 480));
    expected.array_add(entry(code(media::VideoFormat::Pixel(media::PixelFormat::YUYV)), 320, 240));
    expected.array_add(entry(code(media::VideoFormat::Pixel(media::PixelFormat::YV12)), 2, 2));
    expected.array_add(entry(code(media::VideoFormat::Pixel(media::PixelFormat::NV12)), 4, 4));
    assert_eq!(list, expected);
    assert_eq!(list[0]["format"].get_uint32(), Some(0x8000));
    assert_eq!(list[2]["format"].get_uint32(), Some(18));
    assert_eq!(list[3]["format"].get_uint32(), Some(15));
    assert_eq!(list[4]["format"].get_uint32(), Some(9));
}

#[test]
fn no_formats_make_an_empty_list() {
    assert_eq!(list_formats(&vec![]), Variant::new_array());
}

#[test]
fn listed_entries_can_be_asked_for() {
    let formats = vec![
        CameraFormat { fourcc: FOURCC_YU12, sizes: vec![size(64, 48)] },
        CameraFormat { fourcc: FOURCC_MJPEG, sizes: vec![size(1280, 720)] },
        CameraFormat { fourcc: FOURCC_NV12, sizes: vec![size(16, 9)] },
        CameraFormat { fourcc: FOURCC_YUYV, sizes: vec![size(3, 5)] },
    ];
    let list = list_formats(&formats);
    for (i, format) in formats.iter().enumerate() {
        let asked = read_settings(&list[i]);
        assert_eq!(asked, Some(StreamSettings { size: Some(format.sizes[0]), fourcc: format.fourcc }));
    }
}

#[test]
fn options_are_read_from_a_dictionary() {
    let asked = read_settings(&entry(9, 640, 480));
    assert_eq!(asked, Some(StreamSettings { size: Some(size(640, 480)), fourcc: FOURCC_NV12 }));
    assert_eq!(read_settings(&entry(0, 640, 480)), None);
    assert_eq!(read_settings(&Variant::None), Some(StreamSettings { size: None, fourcc: FOURCC_YUYV }));
    assert_eq!(read_settings(&Variant::new_dict()), Some(StreamSettings { size: None, fourcc: FOURCC_YUYV }));
}

#[test]
fn options_of_other_number_types_are_converted() {
    let mut options = Variant::new_dict();
    options["width"] = 100i64.into();
    options["height"] = 50u8.into();
    options["format"] = 15u64.into();
    assert_eq!(read_settings(&options), Some(StreamSettings { size: Some(size(100, 50)), fourcc: FOURCC_YU12 }));
    options["width"] = (-1i32).into();
    assert_eq!(read_settings(&options), Some(StreamSettings { size: None, fourcc: FOURCC_YU12 }));
    options["width"] = "wide".into();
    assert_eq!(read_settings(&options), Some(StreamSettings { size: None, fourcc: FOURCC_YU12 }));
}

#[test]
fn a_size_takes_both_lengths() {
    let keep = Some(StreamSettings { size: None, fourcc: FOURCC_YUYV });
    assert_eq!(plan_settings(Some(1), None, None), keep);
    assert_eq!(plan_settings(None, Some(1), None), keep);
    assert_eq!(plan_settings(None, None, None), keep);
    assert_eq!(
        plan_settings(Some(1), Some(2), Some(0x8000)),
        Some(StreamSettings { size: Some(size(1, 2)), fourcc: FOURCC_MJPEG })
    );
    assert_eq!(plan_settings(Some(1), Some(2), Some(1)), None);
}

fn limits(min: ControlValue, max: ControlValue, default: ControlValue) -> FrameDurationLimits {
    FrameDurationLimits { min, max, default }
}

#[test]
fn intervals_are_the_first_integers_of_the_limits() {
    let limits = limits(
        ControlValue::Int64(vec![33_333, 1]),
        ControlValue::Int64(vec![100_000]),
        ControlValue::Int64(vec![40_000, 2, 3]),
    );
    assert!(limits.are_usable());
    let intervals = FrameIntervals { max: 100_000, min: 33_333, default: 40_000 };
    assert_eq!(frame_intervals(&Some(limits)), Ok(intervals));
}

#[test]
fn a_camera_without_limits_cannot_be_listed() {
    let error = DeviceError::GetFailed("No 'frame duration limits' control".to_string());
    assert_eq!(frame_intervals(&None), Err(error));
}

#[test]
fn limits_of_other_types_cannot_be_read() {
    let error = || DeviceError::GetFailed("Unexpected types for frame duration limits".to_string());
    let row = || ControlValue::Int64(vec![1]);
    let empty = || ControlValue::Int64(vec![]);
    for bad in [
        limits(ControlValue::Other, row(), row()),
        limits(row(), ControlValue::Other, row()),
        limits(row(), row(), ControlValue::Other),
        limits(empty(), ControlValue::Other, empty()),
    ] {
        assert!(bad.are_usable());
        assert_eq!(frame_intervals(&Some(bad)), Err(error()));
    }
}

#[test]
fn limits_without_a_number_are_not_usable() {
    let row = || ControlValue::Int64(vec![1]);
    let empty = || ControlValue::Int64(vec![]);
    assert!(!limits(empty(), row(), row()).are_usable());
    assert!(!limits(row(), empty(), row()).are_usable());
    assert!(!limits(row(), row(), empty()).are_usable());
}
