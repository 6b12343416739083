//! Frames as they leave a camera stream.
use std::num::NonZeroU32;

use vstd::prelude::*;
use x_media::media_frame::MediaFrame;
use x_media::video as media;

use crate::video::PixelFormat;

verus! {

/// The layout of the frames of a stream.
#[derive(Clone, Copy, Debug, PartialEq, Eq, Structural)]
pub struct FrameDescription {
    pub format: PixelFormat,
    pub width: u32,
    pub height: u32,
}

/// Half of a length, rounded up: the extent of a subsampled chroma plane.
pub open spec fn halved(length: int) -> int {
    (length + 1) / 2
}

impl FrameDescription {
    /// A frame has at least one pixel.
    pub open spec fn wf(self) -> bool {
        self.width > 0 && self.height > 0
    }

    /// The number of bytes of a frame, its rows packed without padding.
    pub open spec fn data_size(self) -> int {
        let luma = self.width * self.height;
        let chroma = halved(self.width as int) * halved(self.height as int);
        match self.format {
            PixelFormat::NV12 => luma + 2 * chroma,
            PixelFormat::YV12 => luma + chroma + chroma,
            PixelFormat::YUYV => 4 * halved(self.width as int) * self.height,
        }
    }

    /// Whether the number of bytes of a frame fits 32 bits.
    pub fn is_sizable(&self) -> (sizable: bool)
        ensures
            sizable == (self.data_size() <= u32::MAX),
    {
        let width = self.width as u128;
        let height = self.height as u128;
        let half_width = (width + 1) / 2;
        let half_height = (height + 1) / 2;
        proof {
            assert(0 <= width * height <= 0x1_0000_0000 * 0x1_0000_0000) by (nonlinear_arith)
                requires
                    0 <= width <= 0x1_0000_0000,
                    0 <= height <= 0x1_0000_0000,
            ;
            assert(0 <= half_width * half_height <= 0x1_0000_0000 * 0x1_0000_0000)
                by (nonlinear_arith)
                requires
                    0 <= half_width <= 0x1_0000_0000,
                    0 <= half_height <= 0x1_0000_0000,
            ;
            assert(0 <= half_width * height <= 0x1_0000_0000 * 0x1_0000_0000) by (nonlinear_arith)
                requires
                    0 <= half_width <= 0x1_0000_0000,
                    0 <= height <= 0x1_0000_0000,
            ;
            assert(4 * halved(self.width as int) * self.height == 4 * (half_width * height))
                by (nonlinear_arith)
                requires
                    halved(self.width as int) == half_width,
                    self.height == height,
            ;
        }
        let size: u128 = match self.format {
            PixelFormat::NV12 => width * height + 2 * (half_width * half_height),
            PixelFormat::YV12 => width * height + half_width * half_height + half_width
                * half_height,
            PixelFormat::YUYV => 4 * (half_width * height),
        };
        size <= u32::MAX as u128
    }
}

/// A complete frame with the time of its arrival, in microseconds since the Unix
/// epoch.
#[derive(Debug, PartialEq, Eq)]
pub struct Frame {
    pub desc: FrameDescription,
    pub timestamp: u64,
    pub data: Vec<u8>,
}

impl Frame {
    /// The bytes of a frame are as many as its layout calls for.
    pub open spec fn wf(self) -> bool {
        self.desc.wf() && self.data@.len() == self.desc.data_size()
    }
}

/// Calls `VideoFrameDescription::new` and `MediaFrame::from_data_buffer`: a buffer
/// makes a media frame exactly where it has as many bytes as the format, the width
/// and the height call for. The byte count is worked out in `u32`, so it has to
/// fit one.
#[verifier::external_body]
fn makes_media_frame(desc: FrameDescription, data: &Vec<u8>) -> (made: bool)
    requires
        desc.wf(),
        desc.data_size() <= u32::MAX,
    ensures
        made == (data@.len() == desc.data_size()),
{
    let format = match desc.format {
        PixelFormat::NV12 => media::PixelFormat::NV12,
        PixelFormat::YV12 => media::PixelFormat::YV12,
        PixelFormat::YUYV => media::PixelFormat::YUYV,
    };
    let width = NonZeroU32::new(desc.width).unwrap();
    let height = NonZeroU32::new(desc.height).unwrap();
    let desc = media::VideoFrameDescription::new(format, width, height);
    MediaFrame::from_data_buffer(desc, data.as_slice()).is_ok()
}

/// Copies the bytes at the front of a plane.
fn copy_front(plane: &[u8], count: usize) -> (data: Vec<u8>)
    requires
        count <= plane@.len(),
    ensures
        data@ == plane@.take(count as int),
{
    let mut data: Vec<u8> = Vec::with_capacity(count);
    for i in 0..count
        invariant
            count <= plane@.len(),
            data@ == plane@.take(i as int),
    {
        data.push(plane[i]);
        assert(plane@.take(i + 1) == plane@.take(i as int).push(plane@[i as int]));
    }
    data
}

/// Makes a frame of the bytes that the camera used at the front of a plane, with
/// the low 64 bits of the microseconds since the Unix epoch for its time. `None`
/// where the bytes are not as many as the layout calls for.
pub fn complete_frame(
    desc: FrameDescription,
    plane: &[u8],
    bytes_used: usize,
    micros: u128,
) -> (frame: Option<Frame>)
    requires
        desc.wf(),
        desc.data_size() <= u32::MAX,
        bytes_used <= plane@.len(),
    ensures
        frame is Some <==> bytes_used == desc.data_size(),
        frame matches Some(frame) ==> {
            &&& frame.wf()
            &&& frame.desc == desc
            &&& frame.timestamp == micros % 0x1_0000_0000_0000_0000
            &&& frame.data@ == plane@.take(bytes_used as int)
        },
{
    let data = copy_front(plane, bytes_used);
    if makes_media_frame(desc, &data) {
        assert(micros as u64 == micros % 0x1_0000_0000_0000_0000) by (bit_vector);
        Some(Frame { desc, timestamp: micros as u64, data })
    } else {
        None
    }
}

} // verus!
