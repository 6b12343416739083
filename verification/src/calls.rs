//! What each call gives, in terms of what it was given.
//!
//! A law here takes the arguments and the result of a call and tells what holds of
//! them, or how the results of two calls relate.
use std::sync::Arc;

use vstd::prelude::*;
use x_variant::Variant;

use crate::command::{CameraCmd, CameraCmdResponse, FormatList};
use crate::device::{Exchange, LinuxCameraDevice};
use crate::error::DeviceError;
use crate::formats::{
    frame_intervals, law_each_size_is_listed_in_its_place,
    law_list_has_an_entry_for_each_size, list_formats, sizes_listed, CameraFormat, ControlValue,
    FrameDurationLimits, FrameIntervals,
};
use crate::fourcc::{FOURCC_MJPEG, FOURCC_NV12, FOURCC_YU12, FOURCC_YUYV};
use crate::frame::{complete_frame, Frame, FrameDescription};
use crate::manager::{
    law_found_cameras_keep_their_order, occupied, FoundCamera, LinuxCameraManager,
};
use crate::settings::{plan_settings, read_settings, StreamSettings};
use crate::variant::{array_dicts, dict_numbers, is_array};
use crate::video::{
    pixel_format_of, requested_fourcc, select_fourcc, video_format_of, CompressionFormat,
    PixelFormat, VideoFormat,
};

verus! {

/// `video_format_of` knows the four codes of the camera and no other.
pub proof fn law_video_format_of(fourcc: u32, format: Option<VideoFormat>)
    requires
        call_ensures(video_format_of, (fourcc,), format),
    ensures
        fourcc == FOURCC_NV12 <==> format == Some(VideoFormat::Pixel(PixelFormat::NV12)),
        fourcc == FOURCC_YU12 <==> format == Some(VideoFormat::Pixel(PixelFormat::YV12)),
        fourcc == FOURCC_YUYV <==> format == Some(VideoFormat::Pixel(PixelFormat::YUYV)),
        fourcc == FOURCC_MJPEG <==> format == Some(
            VideoFormat::Compression(CompressionFormat::MJPEG),
        ),
{
}

/// `pixel_format_of` gives the layout of the three codes that stand for pixels.
pub proof fn law_pixel_format_of(fourcc: u32, format: Option<PixelFormat>)
    requires
        call_ensures(pixel_format_of, (fourcc,), format),
    ensures
        fourcc == FOURCC_NV12 <==> format == Some(PixelFormat::NV12),
        fourcc == FOURCC_YU12 <==> format == Some(PixelFormat::YV12),
        fourcc == FOURCC_YUYV <==> format == Some(PixelFormat::YUYV),
{
}

/// `select_fourcc` goes by the low byte and the compression mark of a code, and takes
/// `YUYV` where there is no code or none that stands for a format.
pub proof fn law_select_fourcc(code: Option<u32>, fourcc: Option<u32>)
    requires
        call_ensures(select_fourcc, (code,), fourcc),
    ensures
        code is None ==> fourcc == Some(FOURCC_YUYV),
        code matches Some(code) ==> {
            let ordinal = code % 0x100;
            let compressed = (code / 0x8000) % 2 == 1;
            &&& fourcc == Some(FOURCC_MJPEG) <==> compressed && ordinal == 0
            &&& fourcc == Some(FOURCC_NV12) <==> !compressed && ordinal == 9
            &&& fourcc == Some(FOURCC_YU12) <==> !compressed && ordinal == 15
            &&& fourcc == Some(FOURCC_YUYV) <==> if compressed {
                ordinal != 0
            } else {
                ordinal == 18 || ordinal > 47
            }
            &&& fourcc matches Some(fourcc) ==> fourcc == FOURCC_MJPEG || fourcc == FOURCC_NV12
                || fourcc == FOURCC_YU12 || fourcc == FOURCC_YUYV
        },
{
}

/// `plan_settings` gives a size exactly where a width and a height are given, and then
/// these; the code is the one that `select_fourcc` gives for the format.
pub proof fn law_plan_settings(
    width: Option<u32>,
    height: Option<u32>,
    format: Option<u32>,
    settings: Option<StreamSettings>,
    fourcc: Option<u32>,
)
    requires
        call_ensures(plan_settings, (width, height, format), settings),
        call_ensures(select_fourcc, (format,), fourcc),
    ensures
        settings is Some <==> fourcc is Some,
        settings matches Some(settings) ==> {
            &&& Some(settings.fourcc) == fourcc
            &&& settings.size is Some <==> width is Some && height is Some
            &&& settings.size matches Some(size) ==> Some(size.width) == width && Some(size.height)
                == height
        },
{
}

/// `read_settings` gives what `plan_settings` gives for the `width`, the `height` and
/// the `format` of the options.
pub proof fn law_read_settings(
    options: &Variant,
    read: Option<StreamSettings>,
    planned: Option<StreamSettings>,
)
    requires
        call_ensures(read_settings, (options,), read),
        call_ensures(
            plan_settings,
            (
                dict_numbers(*options).get("width"@),
                dict_numbers(*options).get("height"@),
                dict_numbers(*options).get("format"@),
            ),
            planned,
        ),
    ensures
        read == planned,
{
}

/// `list_formats` gives an array with an entry for each size of each format that the
/// backend deals in, in order, and no others. An entry has the width, the height and a
/// code that selects the format again, and nothing else.
pub proof fn law_list_formats(formats: &Vec<CameraFormat>, list: Variant, i: int, j: int)
    requires
        call_ensures(list_formats, (formats,), list),
    ensures
        is_array(list),
        array_dicts(list).len() == sizes_listed(formats@, formats@.len() as int),
        ({
            let fourcc = formats@[i].fourcc;
            let size = formats@[i].sizes@[j];
            let entry = array_dicts(list)[sizes_listed(formats@, i) + j];
            0 <= i < formats@.len() && 0 <= j < formats@[i].sizes@.len() && (fourcc == FOURCC_NV12
                || fourcc == FOURCC_YU12 || fourcc == FOURCC_YUYV || fourcc == FOURCC_MJPEG) ==> {
                &&& entry.get("width"@) == Some(size.width)
                &&& entry.get("height"@) == Some(size.height)
                &&& entry.get("format"@) is Some
                &&& requested_fourcc(entry.get("format"@)) == Some(fourcc)
                &&& forall|key: Seq<char>| #[trigger]
                    entry.dom().contains(key) ==> key == "width"@ || key == "height"@ || key
                        == "format"@
            }
        }),
{
    law_list_has_an_entry_for_each_size(formats@);
    let fourcc = formats@[i].fourcc;
    if 0 <= i < formats@.len() && 0 <= j < formats@[i].sizes@.len() && (fourcc == FOURCC_NV12
        || fourcc == FOURCC_YU12 || fourcc == FOURCC_YUYV || fourcc == FOURCC_MJPEG) {
        law_each_size_is_listed_in_its_place(formats@, i, j);
    }
}

/// `frame_intervals` gives the first integers of the limits as they stand, and tells
/// limits of other types from no limits at all.
pub proof fn law_frame_intervals(
    limits: &Option<FrameDurationLimits>,
    intervals: Result<FrameIntervals, DeviceError>,
)
    requires
        call_ensures(frame_intervals, (limits,), intervals),
    ensures
        match limits {
            None => intervals matches Err(DeviceError::GetFailed(message)) && message@
                == "No 'frame duration limits' control"@,
            Some(limits) => match (limits.min, limits.max, limits.default) {
                (
                    ControlValue::Int64(min),
                    ControlValue::Int64(max),
                    ControlValue::Int64(default),
                ) => {
                    &&& intervals matches Ok(intervals)
                    &&& intervals.min == min@[0]
                    &&& intervals.max == max@[0]
                    &&& intervals.default == default@[0]
                },
                _ => intervals matches Err(DeviceError::GetFailed(message)) && message@
                    == "Unexpected types for frame duration limits"@,
            },
        },
{
}

/// `frame_intervals` can be called wherever the limits are usable or not there.
pub proof fn law_frame_intervals_can_be_called(limits: &Option<FrameDurationLimits>, usable: bool)
    requires
        limits matches Some(limits) ==> usable && call_ensures(
            FrameDurationLimits::are_usable,
            (&limits,),
            usable,
        ),
    ensures
        call_requires(frame_intervals, (limits,)),
{
}

/// Limits are usable unless they are all rows of integers and one of them is empty.
pub proof fn law_are_usable(limits: &FrameDurationLimits, usable: bool)
    requires
        call_ensures(FrameDurationLimits::are_usable, (limits,), usable),
    ensures
        !usable <==> match (limits.min, limits.max, limits.default) {
            (
                ControlValue::Int64(min),
                ControlValue::Int64(max),
                ControlValue::Int64(default),
            ) => min@.len() == 0 || max@.len() == 0 || default@.len() == 0,
            _ => false,
        },
{
}

/// The bytes of a frame: one for each pixel and, for each block of two by two pixels, two
/// more; or four for each two pixels in a row. Blocks at the edges count in full.
pub open spec fn bytes_of_frame(desc: FrameDescription) -> int {
    let columns = (desc.width + 1) / 2;
    let rows = (desc.height + 1) / 2;
    if desc.format == PixelFormat::YUYV {
        4 * columns * desc.height
    } else {
        desc.width * desc.height + 2 * (columns * rows)
    }
}

/// `complete_frame` makes a frame exactly where the bytes are as many as the layout calls
/// for. The frame has the layout, the bytes in use as they stand, and the time; of a time
/// that does not fit 64 bits it has the low ones.
pub proof fn law_complete_frame(
    desc: FrameDescription,
    plane: &[u8],
    bytes_used: usize,
    micros: u128,
    frame: Option<Frame>,
)
    requires
        bytes_used <= plane@.len(),
        call_ensures(complete_frame, (desc, plane, bytes_used, micros), frame),
    ensures
        frame is Some <==> bytes_used == bytes_of_frame(desc),
        frame matches Some(frame) ==> {
            &&& frame.desc == desc
            &&& frame.data@.len() == bytes_used
            &&& forall|i: int| 0 <= i < bytes_used ==> #[trigger] frame.data@[i] == plane@[i]
            &&& micros <= u64::MAX ==> frame.timestamp == micros
            &&& exists|k: int| #![trigger k * 0x1_0000_0000_0000_0000]
                frame.timestamp + k * 0x1_0000_0000_0000_0000 == micros
        },
{
    lemma_bytes_of_frame(desc);
    if frame is Some {
        let k = micros as int / 0x1_0000_0000_0000_0000;
        assert(frame->0.timestamp + k * 0x1_0000_0000_0000_0000 == micros);
    }
}

/// The bytes of a frame are its data size.
proof fn lemma_bytes_of_frame(desc: FrameDescription)
    ensures
        desc.data_size() == bytes_of_frame(desc),
{
}

/// `complete_frame` can be called wherever the layout has pixels and is sizable and the
/// bytes in use are among those of the plane.
pub proof fn law_complete_frame_can_be_called(
    desc: FrameDescription,
    plane: &[u8],
    bytes_used: usize,
    micros: u128,
)
    requires
        desc.width > 0,
        desc.height > 0,
        bytes_of_frame(desc) < 0x1_0000_0000,
        bytes_used <= plane@.len(),
    ensures
        call_requires(complete_frame, (desc, plane, bytes_used, micros)),
{
    lemma_bytes_of_frame(desc);
}

/// A layout is sizable exactly where its bytes can be counted in 32 bits.
pub proof fn law_is_sizable(desc: &FrameDescription, sizable: bool)
    requires
        call_ensures(FrameDescription::is_sizable, (desc,), sizable),
    ensures
        sizable <==> bytes_of_frame(*desc) < 0x1_0000_0000,
{
    lemma_bytes_of_frame(*desc);
}

/// A new device has the identifier and the link that it was given and does not run.
pub proof fn law_new_device<L>(
    id: &str,
    link: L,
    device: LinuxCameraDevice<L>,
    told_id: &str,
    told_running: bool,
)
    requires
        call_ensures(LinuxCameraDevice::<L>::new, (id, link), device),
        call_ensures(LinuxCameraDevice::<L>::id, (&device,), told_id),
        call_ensures(LinuxCameraDevice::<L>::running, (&device,), told_running),
    ensures
        told_id@ == id@,
        !told_running,
        device.link == link,
{
}

/// Each call has the command of its own, with what it was given.
pub proof fn law_calls_have_their_commands<L, H: ?Sized>(
    device: &LinuxCameraDevice<L>,
    options: Variant,
    handler: Arc<H>,
    start: CameraCmd<H>,
    stop: CameraCmd<H>,
    configure: CameraCmd<H>,
    set_output_handler: CameraCmd<H>,
    formats: CameraCmd<H>,
)
    requires
        call_ensures(LinuxCameraDevice::<L>::start_command::<H>, (device,), start),
        call_ensures(LinuxCameraDevice::<L>::stop_command::<H>, (device,), stop),
        call_ensures(LinuxCameraDevice::<L>::configure_command::<H>, (device, options), configure),
        call_ensures(
            LinuxCameraDevice::<L>::set_output_handler_command::<H>,
            (device, handler),
            set_output_handler,
        ),
        call_ensures(LinuxCameraDevice::<L>::formats_command::<H>, (device,), formats),
    ensures
        start is Start,
        stop is Stop,
        configure == CameraCmd::<H>::Configure(options),
        set_output_handler == CameraCmd::<H>::SetOutputHandler(handler),
        formats is GetFormats,
{
}

/// A start that the worker acknowledges succeeds, one that it refuses fails with its
/// error, and one that does not reach it fails with the whole report.
pub proof fn law_device_start<L>(
    device: &mut LinuxCameraDevice<L>,
    exchange: Exchange,
    result: Result<(), DeviceError>,
)
    requires
        exchange.fits_action(),
        call_ensures(LinuxCameraDevice::<L>::start, (device, exchange), result),
    ensures
        *final(device) == *old(device),
        match exchange {
            Exchange::SendFailed(report) => result matches Err(DeviceError::StartFailed(message))
                && message@ == "Failed to send start command: "@ + report@,
            Exchange::NoAnswer(report) => result matches Err(DeviceError::StartFailed(message))
                && message@ == "No response to command: "@ + report@,
            Exchange::Answered(CameraCmdResponse::DeviceError(error)) => result matches Err(told)
                && same_error(told, error),
            Exchange::Answered(_) => result is Ok,
        },
{
}

/// Whether two errors are of one kind and have the same message.
pub open spec fn same_error(error: DeviceError, other: DeviceError) -> bool {
    match (error, other) {
        (DeviceError::OpenFailed(a), DeviceError::OpenFailed(b)) => a@ == b@,
        (DeviceError::CloseFailed(a), DeviceError::CloseFailed(b)) => a@ == b@,
        (DeviceError::StartFailed(a), DeviceError::StartFailed(b)) => a@ == b@,
        (DeviceError::StopFailed(a), DeviceError::StopFailed(b)) => a@ == b@,
        (DeviceError::GetFailed(a), DeviceError::GetFailed(b)) => a@ == b@,
        (DeviceError::SetFailed(a), DeviceError::SetFailed(b)) => a@ == b@,
        (DeviceError::NotRunning(a), DeviceError::NotRunning(b)) => a@ == b@,
        _ => false,
    }
}

/// A stop that the worker acknowledges succeeds, one that it refuses fails with its
/// error, and one that does not reach it fails with the whole report.
pub proof fn law_device_stop<L>(
    device: &mut LinuxCameraDevice<L>,
    exchange: Exchange,
    result: Result<(), DeviceError>,
)
    requires
        exchange.fits_action(),
        call_ensures(LinuxCameraDevice::<L>::stop, (device, exchange), result),
    ensures
        *final(device) == *old(device),
        match exchange {
            Exchange::SendFailed(report) => result matches Err(DeviceError::CloseFailed(message))
                && message@ == "Failed to send close command: "@ + report@,
            Exchange::NoAnswer(report) => result matches Err(DeviceError::StartFailed(message))
                && message@ == "No response to command: "@ + report@,
            Exchange::Answered(CameraCmdResponse::DeviceError(error)) => result matches Err(told)
                && same_error(told, error),
            Exchange::Answered(_) => result is Ok,
        },
{
}

/// A configuration that the worker acknowledges succeeds, one that it refuses fails with
/// its error, and one that does not reach it fails with the whole report.
pub proof fn law_device_configure<L>(
    device: &mut LinuxCameraDevice<L>,
    exchange: Exchange,
    result: Result<(), DeviceError>,
)
    requires
        exchange.fits_action(),
        call_ensures(LinuxCameraDevice::<L>::configure, (device, exchange), result),
    ensures
        *final(device) == *old(device),
        match exchange {
            Exchange::SendFailed(report) => result matches Err(DeviceError::SetFailed(message))
                && message@ == "Failed to send configure command: "@ + report@,
            Exchange::NoAnswer(report) => result matches Err(DeviceError::SetFailed(message))
                && message@ == "No response to command: "@ + report@,
            Exchange::Answered(CameraCmdResponse::DeviceError(error)) => result matches Err(told)
                && same_error(told, error),
            Exchange::Answered(_) => result is Ok,
        },
{
}

/// A handler that the worker acknowledges is set, one that it refuses fails with its
/// error, and one that does not reach it fails with the whole report.
pub proof fn law_device_set_output_handler<L>(
    device: &mut LinuxCameraDevice<L>,
    exchange: Exchange,
    result: Result<(), DeviceError>,
)
    requires
        exchange.fits_action(),
        call_ensures(LinuxCameraDevice::<L>::set_output_handler, (device, exchange), result),
    ensures
        *final(device) == *old(device),
        match exchange {
            Exchange::SendFailed(report) => result matches Err(DeviceError::SetFailed(message))
                && message@ == "Failed to send set output handler command: "@ + report@,
            Exchange::NoAnswer(report) => result matches Err(DeviceError::SetFailed(message))
                && message@ == "No response to command: "@ + report@,
            Exchange::Answered(CameraCmdResponse::DeviceError(error)) => result matches Err(told)
                && same_error(told, error),
            Exchange::Answered(_) => result is Ok,
        },
{
}

/// A listing gives the list of the worker as it stands, fails with its error where it
/// refuses, and with the whole report where it is not reached.
pub proof fn law_device_formats<L>(
    device: &LinuxCameraDevice<L>,
    exchange: Exchange,
    result: Result<FormatList, DeviceError>,
)
    requires
        exchange.fits_listing(),
        call_ensures(LinuxCameraDevice::<L>::formats, (device, exchange), result),
    ensures
        match exchange {
            Exchange::SendFailed(report) => result matches Err(DeviceError::SetFailed(message))
                && message@ == "Failed to send configure command: "@ + report@,
            Exchange::NoAnswer(report) => result matches Err(DeviceError::SetFailed(message))
                && message@ == "No response to command: "@ + report@,
            Exchange::Answered(CameraCmdResponse::DeviceError(error)) => result matches Err(told)
                && same_error(told, error),
            Exchange::Answered(CameraCmdResponse::Formats(list)) => result == Ok::<
                FormatList,
                DeviceError,
            >(list),
            Exchange::Answered(CameraCmdResponse::Done) => true,
        },
{
}

/// A control action succeeds and does nothing.
pub proof fn law_device_control<L>(
    device: &mut LinuxCameraDevice<L>,
    action: Variant,
    result: Result<(), DeviceError>,
)
    requires
        call_ensures(LinuxCameraDevice::<L>::control, (device, action), result),
    ensures
        *final(device) == *old(device),
        result is Ok,
{
}

/// An exchange can answer an action unless the answer is a list, and a listing unless the
/// answer is a bare acknowledgement.
pub proof fn law_answers_that_fit(exchange: &Exchange, action: bool, listing: bool)
    requires
        call_ensures(Exchange::can_answer_action, (exchange,), action),
        call_ensures(Exchange::can_answer_listing, (exchange,), listing),
    ensures
        !action <==> (exchange matches Exchange::Answered(response) && response is Formats),
        !listing <==> (exchange matches Exchange::Answered(response) && response is Done),
        action == exchange.fits_action(),
        listing == exchange.fits_listing(),
{
}

/// A call of a device can be made with any exchange that can answer it.
pub proof fn law_device_calls_can_be_made<L>(
    device: &mut LinuxCameraDevice<L>,
    exchange: Exchange,
    action: bool,
    listing: bool,
)
    requires
        call_ensures(Exchange::can_answer_action, (&exchange,), action),
        call_ensures(Exchange::can_answer_listing, (&exchange,), listing),
    ensures
        action ==> call_requires(LinuxCameraDevice::<L>::start, (device, exchange)),
        action ==> call_requires(LinuxCameraDevice::<L>::stop, (device, exchange)),
        action ==> call_requires(LinuxCameraDevice::<L>::configure, (device, exchange)),
        action ==> call_requires(LinuxCameraDevice::<L>::set_output_handler, (device, exchange)),
        listing ==> call_requires(LinuxCameraDevice::<L>::formats, (&*old(device), exchange)),
{
}

/// A manager begins without devices on what was opened, or fails with the whole report.
pub proof fn law_manager_init<M, L, C>(
    opened: Result<M, String>,
    manager: Result<LinuxCameraManager<M, L, C>, DeviceError>,
)
    requires
        call_ensures(LinuxCameraManager::<M, L, C>::init, (opened,), manager),
    ensures
        match opened {
            Ok(mgr) => manager matches Ok(manager) && manager.mgr == mgr && manager.devices@.len()
                == 0 && manager.change_handler is None,
            Err(report) => manager matches Err(DeviceError::OpenFailed(message)) && message@
                == report@,
        },
{
}

/// The devices that are listed are the ones at their places, and there is none at any
/// other place. An identifier is looked up to the first of them that has it.
pub proof fn law_list_index_and_lookup_agree<M, L, C>(
    manager: &LinuxCameraManager<M, L, C>,
    listed: Vec<&LinuxCameraDevice<L>>,
    index: usize,
    indexed: Option<&LinuxCameraDevice<L>>,
    id: &str,
    found: Option<&LinuxCameraDevice<L>>,
)
    requires
        call_ensures(LinuxCameraManager::<M, L, C>::list, (manager,), listed),
        call_ensures(LinuxCameraManager::<M, L, C>::index, (manager, index), indexed),
        call_ensures(LinuxCameraManager::<M, L, C>::lookup, (manager, id), found),
    ensures
        listed@.len() == manager.devices@.len(),
        forall|i: int|
            0 <= i < listed@.len() ==> *(#[trigger] listed@[i]) == manager.devices@[i],
        indexed is Some <==> index < listed@.len(),
        indexed matches Some(device) ==> *device == *listed@[index as int],
        found is None <==> forall|i: int|
            0 <= i < listed@.len() ==> (#[trigger] listed@[i]).id@ != id@,
        found matches Some(device) ==> exists|i: int|
            0 <= i < listed@.len() && (#[trigger] listed@[i]).id@ == id@ && *device == *listed@[i]
                && forall|j: int| 0 <= j < i ==> (#[trigger] manager.devices@[j]).id@ != id@,
{
    if let Some(device) = found {
        let i = choose|i: int| #[trigger]
            crate::manager::first_with_id(manager.devices@, id@, i) && *device
                == manager.devices@[i];
        assert(listed@[i].id@ == id@);
    } else {
        assert forall|i: int| 0 <= i < listed@.len() implies (#[trigger] listed@[i]).id@ != id@ by {
            assert(manager.devices@[i].id@ != id@);
        }
    }
}

/// A change to the device at a place changes that device and nothing else.
pub proof fn law_index_mut<M, L, C>(
    manager: &mut LinuxCameraManager<M, L, C>,
    index: usize,
    device: Option<&mut LinuxCameraDevice<L>>,
)
    requires
        call_ensures(LinuxCameraManager::<M, L, C>::index_mut, (manager, index), device),
    ensures
        device is Some <==> index < old(manager).devices@.len(),
        final(manager).devices@.len() == old(manager).devices@.len(),
        forall|i: int|
            0 <= i < old(manager).devices@.len() && i != index ==> (#[trigger] final(
                manager
            ).devices@[i]) == old(manager).devices@[i],
        device matches Some(device) ==> {
            &&& *device == old(manager).devices@[index as int]
            &&& *final(device) == final(manager).devices@[index as int]
        },
        final(manager).mgr == old(manager).mgr,
        final(manager).change_handler == old(manager).change_handler,
{
}

/// A change to the device that is looked up changes the first device with the identifier
/// and nothing else.
pub proof fn law_lookup_mut<M, L, C>(
    manager: &mut LinuxCameraManager<M, L, C>,
    id: &str,
    device: Option<&mut LinuxCameraDevice<L>>,
)
    requires
        call_ensures(LinuxCameraManager::<M, L, C>::lookup_mut, (manager, id), device),
    ensures
        device is None ==> final(manager).devices@ == old(manager).devices@ && forall|i: int|
            0 <= i < old(manager).devices@.len() ==> (#[trigger] old(manager).devices@[i]).id@
                != id@,
        device matches Some(device) ==> exists|i: int|
            0 <= i < old(manager).devices@.len() && (#[trigger] old(manager).devices@[i]).id@
                == id@ && *device == old(manager).devices@[i] && final(manager).devices@
                == old(manager).devices@.update(i, *final(device)) && forall|j: int|
                0 <= j < i ==> (#[trigger] old(manager).devices@[j]).id@ != id@,
        final(manager).mgr == old(manager).mgr,
        final(manager).change_handler == old(manager).change_handler,
{
}

/// To let go of the devices leaves none and changes nothing else.
pub proof fn law_manager_uninit<M, L, C>(manager: &mut LinuxCameraManager<M, L, C>)
    requires
        call_ensures(LinuxCameraManager::<M, L, C>::uninit, (manager,), ()),
    ensures
        final(manager).devices@.len() == 0,
        final(manager).mgr == old(manager).mgr,
        final(manager).change_handler == old(manager).change_handler,
{
}

/// The devices that are adopted are those of the camera list, one for each camera, in
/// order: behind all cameras that come before it stands a device with the identifier and
/// the link of the camera, which does not run.
pub proof fn law_manager_adopt<M, L, C>(
    manager: &mut LinuxCameraManager<M, L, C>,
    places: Vec<Option<FoundCamera<L>>>,
)
    requires
        call_ensures(LinuxCameraManager::<M, L, C>::adopt, (manager, places), ()),
    ensures
        final(manager).devices@.len() == occupied(places@, places@.len() as int),
        forall|k: int|
            0 <= k < places@.len() && (#[trigger] places@[k]) is Some ==> {
                let device = final(manager).devices@[occupied(places@, k)];
                &&& device.id@ == places@[k]->0.id@
                &&& device.link == places@[k]->0.link
                &&& !device.running
            },
        final(manager).mgr == old(manager).mgr,
        final(manager).change_handler == old(manager).change_handler,
{
    law_found_cameras_keep_their_order(places@, places@.len() as int);
    assert(places@.take(places@.len() as int) =~= places@);
    assert forall|k: int| 0 <= k < places@.len() && (#[trigger] places@[k]) is Some implies {
        let device = final(manager).devices@[occupied(places@, k)];
        &&& device.id@ == places@[k]->0.id@
        &&& device.link == places@[k]->0.link
        &&& !device.running
    } by {
        let device = final(manager).devices@[occupied(places@, k)];
        assert(crate::manager::found_cameras(places@)[occupied(places@, k)] == places@[k]->0);
        assert(crate::manager::fresh_device(device, places@[k]->0));
    }
}

/// A refresh gives the devices that `adopt` gives for what `find` found on the manager
/// without its old devices.
pub proof fn law_manager_refresh<
    M,
    L,
    C,
    F: FnOnce(&LinuxCameraManager<M, L, C>) -> Vec<Option<FoundCamera<L>>>,
>(manager: &mut LinuxCameraManager<M, L, C>, find: F, result: Result<(), DeviceError>)
    requires
        call_ensures(LinuxCameraManager::<M, L, C>::refresh::<F>, (manager, find), result),
    ensures
        result is Ok,
        final(manager).mgr == old(manager).mgr,
        final(manager).change_handler == old(manager).change_handler,
        exists|seen: &LinuxCameraManager<M, L, C>, places: Vec<Option<FoundCamera<L>>>|
            {
                &&& #[trigger] call_ensures(find, (seen,), places)
                &&& seen.devices@.len() == 0
                &&& seen.mgr == old(manager).mgr
                &&& seen.change_handler == old(manager).change_handler
                &&& final(manager).devices@.len() == occupied(places@, places@.len() as int)
                &&& forall|k: int|
                    0 <= k < places@.len() && (#[trigger] places@[k]) is Some ==> {
                        let device = final(manager).devices@[occupied(places@, k)];
                        &&& device.id@ == places@[k]->0.id@
                        &&& device.link == places@[k]->0.link
                        &&& !device.running
                    }
            },
{
    let (seen, places) = choose|
        seen: &LinuxCameraManager<M, L, C>,
        places: Vec<Option<FoundCamera<L>>>,
    | #[trigger]
        call_ensures(find, (seen,), places) && seen.devices@.len() == 0 && seen.mgr
            == old(manager).mgr && seen.change_handler == old(manager).change_handler
            && crate::manager::fresh_devices(
            final(manager).devices@,
            crate::manager::found_cameras(places@),
        );
    law_found_cameras_keep_their_order(places@, places@.len() as int);
    assert(places@.take(places@.len() as int) =~= places@);
    assert forall|k: int| 0 <= k < places@.len() && (#[trigger] places@[k]) is Some implies {
        let device = final(manager).devices@[occupied(places@, k)];
        &&& device.id@ == places@[k]->0.id@
        &&& device.link == places@[k]->0.link
        &&& !device.running
    } by {
        let device = final(manager).devices@[occupied(places@, k)];
        assert(crate::manager::fresh_device(device, places@[k]->0));
    }
}

/// To set a change handler sets it and changes nothing else.
pub proof fn law_manager_set_change_handler<M, L, C>(
    manager: &mut LinuxCameraManager<M, L, C>,
    handler: C,
    result: Result<(), DeviceError>,
)
    requires
        call_ensures(LinuxCameraManager::<M, L, C>::set_change_handler, (manager, handler), result),
    ensures
        result is Ok,
        final(manager).change_handler == Some(handler),
        final(manager).devices@ == old(manager).devices@,
        final(manager).mgr == old(manager).mgr,
{
}

} // verus!
