//! Four-character codes of the pixel formats that a camera stream can carry.
use vstd::prelude::*;

verus! {

/// Motion JPEG.
pub const FOURCC_MJPEG: u32 = 0x4750_4A4D;

/// Biplanar YUV 4:2:0.
pub const FOURCC_NV12: u32 = 0x3231_564E;

/// Packed YUV 4:2:2.
pub const FOURCC_YUYV: u32 = 0x5659_5559;

/// Planar YUV 4:2:0.
pub const FOURCC_YU12: u32 = 0x3231_5559;

/// The number that four characters spell, the first in the lowest byte.
pub open spec fn fourcc(a: char, b: char, c: char, d: char) -> int {
    a as int + 0x100 * (b as int) + 0x1_0000 * (c as int) + 0x100_0000 * (d as int)
}

/// Each code spells its own name in little-endian order.
pub proof fn codes_spell_their_names()
    ensures
        FOURCC_MJPEG == fourcc('M', 'J', 'P', 'G'),
        FOURCC_NV12 == fourcc('N', 'V', '1', '2'),
        FOURCC_YUYV == fourcc('Y', 'U', 'Y', 'V'),
        FOURCC_YU12 == fourcc('Y', 'U', '1', '2'),
{
}

} // verus!
