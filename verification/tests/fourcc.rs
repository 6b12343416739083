use linux_camera::fourcc::{FOURCC_MJPEG, FOURCC_NV12, FOURCC_YU12, FOURCC_YUYV};

#[test]
fn fourcc() {
    assert_eq!(FOURCC_YU12, 0x32315559);
}

#[test]
fn codes_read_as_their_names() {
    assert_eq!(FOURCC_MJPEG, u32::from_le_bytes([b'M', b'J', b'P', b'G']));
    assert_eq!(FOURCC_NV12, u32::from_le_bytes([b'N', b'V', b'1', b'2']));
    assert_eq!(FOURCC_YUYV, u32::from_le_bytes([b'Y', b'U', b'Y', b'V']));
    assert_eq!(FOURCC_YU12, u32::from_le_bytes([b'Y', b'U', b'1', b'2']));
}
