use linux_camera::frame::{complete_frame, Frame, FrameDescription};
use linux_camera::video::PixelFormat;

fn description(format: PixelFormat, width: u32, height: u32) -> FrameDescription {
    FrameDescription { format, width, height }
}

fn bytes(count: usize) -> Vec<u8> {
    (0..count).map(|i| (i % 251) as u8).collect()
}

fn completes_at(desc: FrameDescription, size: usize) {
    let plane = bytes(size + 4);
    for used in 0..=size + 4 {
        let frame = complete_frame(desc, &plane, used, 7);
        assert_eq!(frame.is_some(), used == size, "{desc:?} with {used} bytes");
    }
}

#[test]
fn biplanar_frames_have_a_byte_count() {
    completes_at(description(PixelFormat::NV12, 4, 4), 24);
    completes_at(description(PixelFormat::NV12, 3, 5), 27);
    completes_at(description(PixelFormat::NV12, 1, 1), 3);
}

#[test]
fn planar_frames_have_a_byte_count() {
    completes_at(description(PixelFormat::YV12, 4, 4), 24);
    completes_at(description(PixelFormat::YV12, 3, 5), 27);
    completes_at(description(PixelFormat::YV12, 1, 1), 3);
}

#[test]
fn packed_frames_have_a_byte_count() {
    completes_at(description(PixelFormat::YUYV, 4, 4), 32);
    completes_at(description(PixelFormat::YUYV, 3, 5), 40);
    completes_at(description(PixelFormat::YUYV, 1, 1), 4);
}

#[test]
fn a_frame_holds_the_used_bytes() {
    let desc = description(PixelFormat::NV12, 2, 2);
    let plane = bytes(10);
    let frame = complete_frame(desc, &plane, 6, 1_700_000_000_000_001);
    assert_eq!(frame, Some(Frame { desc, timestamp: 1_700_000_000_000_001, data: vec![0, 1, 2, 3, 4, 5] }));
}

#[test]
fn the_time_keeps_its_low_bits() {
    let desc = description(PixelFormat::YUYV, 2, 1);
    let frame = complete_frame(desc, &bytes(4), 4, (1u128 << 64) + 9).unwrap();
    assert_eq!(frame.timestamp, 9);
    let frame = complete_frame(desc, &bytes(4), 4, u64::MAX as u128).unwrap();
    assert_eq!(frame.timestamp, u64::MAX);
}

#[test]
fn byte_counts_are_bounded() {
    assert!(description(PixelFormat::NV12, 1920, 1080).is_sizable());
    assert!(description(PixelFormat::YUYV, 0x7fff, 0xffff).is_sizable());
    assert!(description(PixelFormat::YUYV, 2, 0x3fff_ffff).is_sizable());
    assert!(!description(PixelFormat::YUYV, 2, 0x4000_0000).is_sizable());
    assert!(!description(PixelFormat::NV12, 0xffff, 0xffff).is_sizable());
    assert!(!description(PixelFormat::YV12, u32::MAX, u32::MAX).is_sizable());
    assert!(!description(PixelFormat::YUYV, u32::MAX, u32::MAX).is_sizable());
}
