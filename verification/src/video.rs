//! Video formats, and the two numberings in use for them: the four-character
//! codes of the camera and the format codes of `x-media`.
use vstd::prelude::*;
use x_media::video as media;

use crate::fourcc::{FOURCC_MJPEG, FOURCC_NV12, FOURCC_YU12, FOURCC_YUYV};

verus! {

/// A raw pixel layout that the camera backend deals in.
#[derive(Clone, Copy, Debug, PartialEq, Eq, Structural)]
pub enum PixelFormat {
    /// Biplanar YUV 4:2:0.
    NV12,
    /// Planar YUV 4:2:0.
    YV12,
    /// Packed YUV 4:2:2.
    YUYV,
}

/// A compressed format that the camera backend deals in.
#[derive(Clone, Copy, Debug, PartialEq, Eq, Structural)]
pub enum CompressionFormat {
    /// Motion JPEG.
    MJPEG,
}

/// A video format that the camera backend deals in.
#[derive(Clone, Copy, Debug, PartialEq, Eq, Structural)]
pub enum VideoFormat {
    /// Frames arrive as raw pixels.
    Pixel(PixelFormat),
    /// Frames arrive compressed.
    Compression(CompressionFormat),
}

/// Any video format that `x-media` knows, by its place in the `x-media` tables.
#[derive(Clone, Copy, Debug, PartialEq, Eq, Structural)]
pub enum MediaFormat {
    /// The ordinal of an `x_media::video::PixelFormat`.
    Pixel(u8),
    /// The ordinal of an `x_media::video::CompressionFormat`.
    Compression(u8),
}

/// The ordinal of `NV12` among the pixel formats of `x-media`.
pub const ORDINAL_NV12: u8 = 9;

/// The ordinal of `YV12` among the pixel formats of `x-media`.
pub const ORDINAL_YV12: u8 = 15;

/// The ordinal of `YUYV` among the pixel formats of `x-media`.
pub const ORDINAL_YUYV: u8 = 18;

/// The ordinal of `MJPEG` among the compression formats of `x-media`.
pub const ORDINAL_MJPEG: u8 = 0;

/// The last ordinal of a pixel format of `x-media`.
pub const ORDINAL_LAST_PIXEL: u8 = 47;

/// The bit that marks the code of a compressed format.
pub const COMPRESSION_MASK: u32 = 0x8000;

/// The place of a format in the `x-media` tables.
pub open spec fn media_format(format: VideoFormat) -> MediaFormat {
    match format {
        VideoFormat::Pixel(PixelFormat::NV12) => MediaFormat::Pixel(ORDINAL_NV12),
        VideoFormat::Pixel(PixelFormat::YV12) => MediaFormat::Pixel(ORDINAL_YV12),
        VideoFormat::Pixel(PixelFormat::YUYV) => MediaFormat::Pixel(ORDINAL_YUYV),
        VideoFormat::Compression(CompressionFormat::MJPEG) => MediaFormat::Compression(
            ORDINAL_MJPEG,
        ),
    }
}

/// The code of a format: its ordinal, marked by `COMPRESSION_MASK` where the
/// format is compressed.
pub open spec fn format_code(format: VideoFormat) -> int {
    match media_format(format) {
        MediaFormat::Pixel(ordinal) => ordinal as int,
        MediaFormat::Compression(ordinal) => ordinal + COMPRESSION_MASK,
    }
}

/// The format that a code stands for. Of a code only the low byte and the bit
/// of `COMPRESSION_MASK` count.
pub open spec fn coded_format(code: u32) -> Option<MediaFormat> {
    let ordinal = (code % 0x100) as u8;
    if (code / COMPRESSION_MASK) % 2 == 1 {
        if ordinal == ORDINAL_MJPEG {
            Some(MediaFormat::Compression(ordinal))
        } else {
            None
        }
    } else if ordinal <= ORDINAL_LAST_PIXEL {
        Some(MediaFormat::Pixel(ordinal))
    } else {
        None
    }
}

/// Calls the conversion into `u32` of `x_media::video::VideoFormat`: a pixel
/// format converts to its ordinal, a compressed one to its ordinal with the bit
/// of `COMPRESSION_MASK` set.
#[verifier::external_body]
pub(crate) fn encode_format(format: VideoFormat) -> (code: u32)
    ensures
        code == format_code(format),
{
    let format = match format {
        VideoFormat::Pixel(PixelFormat::NV12) => media::VideoFormat::Pixel(media::PixelFormat::NV12),
        VideoFormat::Pixel(PixelFormat::YV12) => media::VideoFormat::Pixel(media::PixelFormat::YV12),
        VideoFormat::Pixel(PixelFormat::YUYV) => media::VideoFormat::Pixel(media::PixelFormat::YUYV),
        VideoFormat::Compression(CompressionFormat::MJPEG) => {
            media::VideoFormat::Compression(media::CompressionFormat::MJPEG)
        }
    };
    format.into()
}

/// Calls the conversion from `u32` of `x_media::video::VideoFormat`. With the bit
/// of `COMPRESSION_MASK` set, the low byte of the code is looked up among the
/// compression formats, which end at `MJPEG`; without it, among the pixel
/// formats, which end at `ORDINAL_LAST_PIXEL`.
#[verifier::external_body]
fn decode_format(code: u32) -> (format: Option<MediaFormat>)
    ensures
        format == coded_format(code),
{
    match media::VideoFormat::try_from(code) {
        Ok(media::VideoFormat::Pixel(format)) => Some(MediaFormat::Pixel(format as u8)),
        Ok(media::VideoFormat::Compression(format)) => Some(MediaFormat::Compression(format as u8)),
        Err(()) => None,
    }
}

/// The four-character code under which the camera knows a format.
pub open spec fn format_fourcc(format: VideoFormat) -> u32 {
    match format {
        VideoFormat::Pixel(PixelFormat::NV12) => FOURCC_NV12,
        VideoFormat::Pixel(PixelFormat::YV12) => FOURCC_YU12,
        VideoFormat::Pixel(PixelFormat::YUYV) => FOURCC_YUYV,
        VideoFormat::Compression(CompressionFormat::MJPEG) => FOURCC_MJPEG,
    }
}

/// The format that the camera means by a four-character code.
pub open spec fn fourcc_format(fourcc: u32) -> Option<VideoFormat> {
    if fourcc == FOURCC_NV12 {
        Some(VideoFormat::Pixel(PixelFormat::NV12))
    } else if fourcc == FOURCC_YU12 {
        Some(VideoFormat::Pixel(PixelFormat::YV12))
    } else if fourcc == FOURCC_YUYV {
        Some(VideoFormat::Pixel(PixelFormat::YUYV))
    } else if fourcc == FOURCC_MJPEG {
        Some(VideoFormat::Compression(CompressionFormat::MJPEG))
    } else {
        None
    }
}

/// A four-character code means a format exactly where it is the code of that
/// format: no two formats share one, and looking one up undoes giving one.
pub proof fn law_fourcc_names_one_format(fourcc: u32, format: VideoFormat)
    ensures
        fourcc_format(fourcc) == Some(format) <==> format_fourcc(format) == fourcc,
{
}

/// Looks up what the camera means by a four-character code: `None` for a code
/// that the backend does not deal in.
pub fn video_format_of(fourcc: u32) -> (format: Option<VideoFormat>)
    ensures
        format == fourcc_format(fourcc),
{
    if fourcc == FOURCC_MJPEG {
        Some(VideoFormat::Compression(CompressionFormat::MJPEG))
    } else if fourcc == FOURCC_YUYV {
        Some(VideoFormat::Pixel(PixelFormat::YUYV))
    } else if fourcc == FOURCC_YU12 {
        Some(VideoFormat::Pixel(PixelFormat::YV12))
    } else if fourcc == FOURCC_NV12 {
        Some(VideoFormat::Pixel(PixelFormat::NV12))
    } else {
        None
    }
}

/// The pixel layout in which a stream delivers frames under a four-character
/// code, if frames can be delivered under it at all.
pub open spec fn deliverable(fourcc: u32) -> Option<PixelFormat> {
    match fourcc_format(fourcc) {
        Some(VideoFormat::Pixel(format)) => Some(format),
        _ => None,
    }
}

/// Finds the pixel layout of the frames of a stream: `None` where the stream is
/// compressed or its format is not one that the backend deals in.
pub fn pixel_format_of(fourcc: u32) -> (format: Option<PixelFormat>)
    ensures
        format == deliverable(fourcc),
{
    match video_format_of(fourcc) {
        Some(VideoFormat::Pixel(format)) => Some(format),
        _ => None,
    }
}

/// The four-character code under which the camera knows a format of `x-media`,
/// where it is one of the formats that the backend deals in.
pub open spec fn media_fourcc(format: MediaFormat) -> Option<u32> {
    match format {
        MediaFormat::Pixel(ordinal) => if ordinal == ORDINAL_NV12 {
            Some(FOURCC_NV12)
        } else if ordinal == ORDINAL_YV12 {
            Some(FOURCC_YU12)
        } else if ordinal == ORDINAL_YUYV {
            Some(FOURCC_YUYV)
        } else {
            None
        },
        MediaFormat::Compression(ordinal) => if ordinal == ORDINAL_MJPEG {
            Some(FOURCC_MJPEG)
        } else {
            None
        },
    }
}

/// The four-character code to set on a stream for a requested format code.
/// Without a code, and for a code that stands for no format, that is `YUYV`.
/// `None` for a code that stands for a format which the backend does not deal in.
pub open spec fn requested_fourcc(code: Option<u32>) -> Option<u32> {
    match code {
        Some(code) => match coded_format(code) {
            Some(format) => media_fourcc(format),
            None => Some(FOURCC_YUYV),
        },
        None => Some(FOURCC_YUYV),
    }
}

/// A format whose code is requested is the one that is set: its code fits a
/// `u32`, stands for that format and selects its four-character code.
pub proof fn law_code_requests_its_format(format: VideoFormat)
    ensures
        0 <= format_code(format) <= u32::MAX,
        coded_format(format_code(format) as u32) == Some(media_format(format)),
        requested_fourcc(Some(format_code(format) as u32)) == Some(format_fourcc(format)),
{
}

/// Whatever code is requested, the four-character code that is selected is one
/// that the backend deals in.
pub proof fn law_selected_fourcc_is_known(code: Option<u32>)
    ensures
        requested_fourcc(code) matches Some(fourcc) ==> fourcc_format(fourcc) is Some,
{
}

/// The camera means `NV12`, `YV12`, `YUYV` and `MJPEG` by one four-character code each,
/// and nothing that the backend deals in by any other.
pub proof fn law_camera_codes_mean_their_formats(fourcc: u32)
    ensures
        fourcc == FOURCC_NV12 <==> fourcc_format(fourcc) == Some(
            VideoFormat::Pixel(PixelFormat::NV12),
        ),
        fourcc == FOURCC_YU12 <==> fourcc_format(fourcc) == Some(
            VideoFormat::Pixel(PixelFormat::YV12),
        ),
        fourcc == FOURCC_YUYV <==> fourcc_format(fourcc) == Some(
            VideoFormat::Pixel(PixelFormat::YUYV),
        ),
        fourcc == FOURCC_MJPEG <==> fourcc_format(fourcc) == Some(
            VideoFormat::Compression(CompressionFormat::MJPEG),
        ),
{
}

/// A stream delivers frames in a pixel layout exactly where the camera means that
/// layout by its code.
pub proof fn law_pixel_streams_deliver_their_layout(fourcc: u32, format: PixelFormat)
    ensures
        deliverable(fourcc) == Some(format) <==> fourcc_format(fourcc) == Some(
            VideoFormat::Pixel(format),
        ),
        deliverable(fourcc) == Some(PixelFormat::NV12) <==> fourcc == FOURCC_NV12,
        deliverable(fourcc) == Some(PixelFormat::YV12) <==> fourcc == FOURCC_YU12,
        deliverable(fourcc) == Some(PixelFormat::YUYV) <==> fourcc == FOURCC_YUYV,
{
}

/// What a requested code selects is read off its low byte and its compression mark. A
/// code that stands for no format selects `YUYV`, as no code at all does. A code that
/// stands for a format which the backend does not deal in selects nothing.
pub proof fn law_selection_is_read_off_the_code(code: u32)
    ensures
        ({
            let ordinal = code % 0x100;
            let compressed = (code / 0x8000) % 2 == 1;
            let selected = requested_fourcc(Some(code));
            &&& compressed ==> selected == Some(
                if ordinal == 0 {
                    FOURCC_MJPEG
                } else {
                    FOURCC_YUYV
                },
            )
            &&& !compressed && ordinal == ORDINAL_NV12 ==> selected == Some(FOURCC_NV12)
            &&& !compressed && ordinal == ORDINAL_YV12 ==> selected == Some(FOURCC_YU12)
            &&& !compressed && ordinal == ORDINAL_YUYV ==> selected == Some(FOURCC_YUYV)
            &&& !compressed && ordinal > ORDINAL_LAST_PIXEL ==> selected == Some(FOURCC_YUYV)
            &&& selected is None <==> !compressed && ordinal <= ORDINAL_LAST_PIXEL && ordinal
                != ORDINAL_NV12 && ordinal != ORDINAL_YV12 && ordinal != ORDINAL_YUYV
        }),
        requested_fourcc(None) == Some(FOURCC_YUYV),
{
}

/// Two codes with the same low byte and the same compression mark select the same.
pub proof fn law_other_bits_of_a_code_do_not_count(code: u32, other: u32)
    requires
        code % 0x100 == other % 0x100,
        (code / 0x8000) % 2 == (other / 0x8000) % 2,
    ensures
        requested_fourcc(Some(code)) == requested_fourcc(Some(other)),
{
}

/// Chooses the four-character code to set on a stream for a requested format
/// code. `None` means that the code stands for a format of `x-media` that the
/// backend does not deal in.
pub fn select_fourcc(code: Option<u32>) -> (fourcc: Option<u32>)
    ensures
        fourcc == requested_fourcc(code),
{
    let requested = match code {
        Some(code) => decode_format(code),
        None => None,
    };
    match requested {
        Some(MediaFormat::Pixel(ordinal)) => if ordinal == ORDINAL_NV12 {
            Some(FOURCC_NV12)
        } else if ordinal == ORDINAL_YUYV {
            Some(FOURCC_YUYV)
        } else if ordinal == ORDINAL_YV12 {
            Some(FOURCC_YU12)
        } else {
            None
        },
        Some(MediaFormat::Compression(ordinal)) => if ordinal == ORDINAL_MJPEG {
            Some(FOURCC_MJPEG)
        } else {
            None
        },
        None => Some(FOURCC_YUYV),
    }
}

} // verus!
