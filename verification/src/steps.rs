//! What each event does to a worker.
//!
//! A law here takes a worker before and after a call of `handle`, the event and the
//! answers, and tells what became of the worker and what is answered.
use std::sync::Arc;

use vstd::prelude::*;
use x_variant::Variant;

use crate::command::{response_views, CameraCmd, CameraCmdResponse};
use crate::error::DeviceError;
use crate::formats::{
    format_entries, CameraFormat, ControlValue, FrameDurationLimits, Size,
};
use crate::fourcc::{FOURCC_NV12, FOURCC_YU12, FOURCC_YUYV};
use crate::frame::FrameDescription;
use crate::variant::{array_dicts, dict_numbers, is_array};
use crate::video::{requested_fourcc, PixelFormat};
use crate::worker::{Action, BufferPlace, LinuxCameraWorker, WorkerEvent};

verus! {

/// The worker with another action to wait for and nothing else changed.
pub open spec fn now_awaiting<H: ?Sized>(
    worker: LinuxCameraWorker<H>,
    action: Action,
) -> LinuxCameraWorker<H> {
    LinuxCameraWorker {
        running: worker.running,
        shutdown: worker.shutdown,
        camera: worker.camera,
        request_channel: worker.request_channel,
        output_handler: worker.output_handler,
        capture_handler: worker.capture_handler,
        config_applied: worker.config_applied,
        awaiting: action,
    }
}

/// Where a round leads: out of the loop after a shutdown, and else to the commands.
pub open spec fn where_a_round_leads<H: ?Sized>(worker: LinuxCameraWorker<H>) -> Action {
    if worker.shutdown {
        Action::Exit
    } else {
        Action::ReceiveCommand
    }
}

/// Whether the one answer is that a start failed, with a message.
pub open spec fn one_start_error(responses: Seq<CameraCmdResponse>, message: Seq<char>) -> bool {
    &&& responses.len() == 1
    &&& responses[0] matches CameraCmdResponse::DeviceError(DeviceError::StartFailed(told))
    &&& told@ == message
}

/// Whether the one answer is that the command was carried out.
pub open spec fn one_acknowledgement(responses: Seq<CameraCmdResponse>) -> bool {
    responses.len() == 1 && responses[0] is Done
}

/// Answers have their views in the same order.
proof fn lemma_views(responses: Seq<CameraCmdResponse>)
    ensures
        response_views(responses).len() == responses.len(),
        forall|i: int|
            #![trigger responses[i]]
            #![trigger response_views(responses)[i]]
            0 <= i < responses.len() ==> response_views(responses)[i] == responses[i]@,
{
}

/// Without a command the worker turns to the requests where there is a channel for
/// them, and else to the next round. The same goes for an answer that was lost.
pub proof fn law_no_command<H: ?Sized>(
    worker: &mut LinuxCameraWorker<H>,
    event: WorkerEvent<H>,
    responses: Vec<CameraCmdResponse>,
)
    requires
        event is NoCommand || event is AnswerLost,
        call_ensures(
            LinuxCameraWorker::<H>::handle,
            (worker, event),
            responses,
        ),
    ensures
        *final(worker) == now_awaiting(
            *old(worker),
            if old(worker).request_channel {
                Action::AwaitRequest
            } else {
                where_a_round_leads(*old(worker))
            },
        ),
        responses@.len() == 0,
{
    lemma_views(responses@);
}

/// When no request is completed in time the round ends, whether or not the worker holds
/// the camera: without a shutdown it looks for commands again. The same goes for a request
/// that is queued again.
pub proof fn law_round_ends<H: ?Sized>(
    worker: &mut LinuxCameraWorker<H>,
    event: WorkerEvent<H>,
    responses: Vec<CameraCmdResponse>,
)
    requires
        event is RequestTimedOut || event is RequestQueued,
        call_ensures(
            LinuxCameraWorker::<H>::handle,
            (worker, event),
            responses,
        ),
    ensures
        *final(worker) == now_awaiting(*old(worker), where_a_round_leads(*old(worker))),
        responses@.len() == 0,
{
    lemma_views(responses@);
}

/// A completed request is queued again while the camera is held, and else the round ends.
pub proof fn law_request_completed<H: ?Sized>(
    worker: &mut LinuxCameraWorker<H>,
    responses: Vec<CameraCmdResponse>,
)
    requires
        call_ensures(
            LinuxCameraWorker::<H>::handle,
            (worker, WorkerEvent::RequestCompleted),
            responses,
        ),
    ensures
        *final(worker) == now_awaiting(
            *old(worker),
            if old(worker).camera {
                Action::RequeueRequest
            } else {
                where_a_round_leads(*old(worker))
            },
        ),
        responses@.len() == 0,
{
    lemma_views(responses@);
}

/// A request that cannot be queued again ends the worker.
pub proof fn law_queue_failed<H: ?Sized>(
    worker: &mut LinuxCameraWorker<H>,
    responses: Vec<CameraCmdResponse>,
)
    requires
        call_ensures(
            LinuxCameraWorker::<H>::handle,
            (worker, WorkerEvent::QueueFailed),
            responses,
        ),
    ensures
        *final(worker) == now_awaiting(*old(worker), Action::Exit),
        responses@.len() == 0,
{
    lemma_views(responses@);
}

/// A start is refused while capture runs, and else begins with the camera.
pub proof fn law_start_command<H: ?Sized>(
    worker: &mut LinuxCameraWorker<H>,
    responses: Vec<CameraCmdResponse>,
)
    requires
        call_ensures(
            LinuxCameraWorker::<H>::handle,
            (worker, WorkerEvent::Command(CameraCmd::Start)),
            responses,
        ),
    ensures
        old(worker).running ==> *final(worker) == *old(worker) && one_start_error(
            responses@,
            "Already running"@,
        ),
        !old(worker).running ==> *final(worker) == now_awaiting(
            *old(worker),
            Action::AcquireCamera,
        ) && responses@.len() == 0,
{
    lemma_views(responses@);
}

/// A stop is refused without the camera, and else lets go of it.
pub proof fn law_stop_command<H: ?Sized>(
    worker: &mut LinuxCameraWorker<H>,
    responses: Vec<CameraCmdResponse>,
)
    requires
        call_ensures(
            LinuxCameraWorker::<H>::handle,
            (worker, WorkerEvent::Command(CameraCmd::Stop)),
            responses,
        ),
    ensures
        !old(worker).camera ==> *final(worker) == *old(worker) && responses@.len() == 1 && (
        responses@[0] matches CameraCmdResponse::DeviceError(DeviceError::NotRunning(told))
            && told@ == "Not running"@),
        old(worker).camera ==> {
            &&& *final(worker) == (LinuxCameraWorker {
                camera: false,
                ..now_awaiting(*old(worker), Action::StopCamera)
            })
            &&& responses@.len() == 0
        },
{
    lemma_views(responses@);
}

/// A shutdown is taken note of, and the worker turns to the requests where there is a
/// channel for them, and else leaves.
pub proof fn law_shutdown_command<H: ?Sized>(
    worker: &mut LinuxCameraWorker<H>,
    responses: Vec<CameraCmdResponse>,
)
    requires
        call_ensures(
            LinuxCameraWorker::<H>::handle,
            (worker, WorkerEvent::Command(CameraCmd::Shutdown)),
            responses,
        ),
    ensures
        *final(worker) == (LinuxCameraWorker {
            shutdown: true,
            ..now_awaiting(
                *old(worker),
                if old(worker).request_channel {
                    Action::AwaitRequest
                } else {
                    Action::Exit
                },
            )
        }),
        responses@.len() == 0,
{
    lemma_views(responses@);
}

/// A handler that is set is the output handler from now on, and nothing else changes.
pub proof fn law_set_output_handler_command<H: ?Sized>(
    worker: &mut LinuxCameraWorker<H>,
    handler: Arc<H>,
    responses: Vec<CameraCmdResponse>,
)
    requires
        call_ensures(
            LinuxCameraWorker::<H>::handle,
            (worker, WorkerEvent::Command(CameraCmd::SetOutputHandler(handler))),
            responses,
        ),
    ensures
        *final(worker) == (LinuxCameraWorker {
            output_handler: Some(handler),
            ..now_awaiting(*old(worker), old(worker).awaiting)
        }),
        one_acknowledgement(responses@),
{
    lemma_views(responses@);
}

/// Options are put on the stream: the size that a width and a height name together, and
/// the code that the format selects.
pub proof fn law_configure_command<H: ?Sized>(
    worker: &mut LinuxCameraWorker<H>,
    options: Variant,
    responses: Vec<CameraCmdResponse>,
)
    requires
        requested_fourcc(dict_numbers(options).get("format"@)) is Some,
        call_ensures(
            LinuxCameraWorker::<H>::handle,
            (worker, WorkerEvent::Command(CameraCmd::Configure(options))),
            responses,
        ),
    ensures
        ({
            let numbers = dict_numbers(options);
            &&& final(worker).awaiting matches Action::SetStream(settings)
            &&& *final(worker) == now_awaiting(*old(worker), final(worker).awaiting)
            &&& requested_fourcc(numbers.get("format"@)) == Some(settings.fourcc)
            &&& settings.size is Some <==> numbers.get("width"@) is Some && numbers.get(
                "height"@,
            ) is Some
            &&& settings.size matches Some(size) ==> Some(size.width) == numbers.get("width"@)
                && Some(size.height) == numbers.get("height"@)
        }),
        responses@.len() == 0,
{
    lemma_views(responses@);
}

/// To list the formats begins with reading them.
pub proof fn law_get_formats_command<H: ?Sized>(
    worker: &mut LinuxCameraWorker<H>,
    responses: Vec<CameraCmdResponse>,
)
    requires
        call_ensures(
            LinuxCameraWorker::<H>::handle,
            (worker, WorkerEvent::Command(CameraCmd::GetFormats)),
            responses,
        ),
    ensures
        *final(worker) == now_awaiting(*old(worker), Action::ReadFormats),
        responses@.len() == 0,
{
    lemma_views(responses@);
}

/// Formats that were read are listed with the first integers of the limits as they stand.
/// Limits of other types, and no limits, are told apart. Either way the worker looks for
/// commands again.
pub proof fn law_formats_read<H: ?Sized>(
    worker: &mut LinuxCameraWorker<H>,
    formats: Vec<CameraFormat>,
    limits: Option<FrameDurationLimits>,
    responses: Vec<CameraCmdResponse>,
)
    requires
        call_ensures(
            LinuxCameraWorker::<H>::handle,
            (worker, WorkerEvent::FormatsRead { formats, limits }),
            responses,
        ),
    ensures
        *final(worker) == now_awaiting(*old(worker), Action::ReceiveCommand),
        responses@.len() == 1,
        match limits {
            None => responses@[0] matches CameraCmdResponse::DeviceError(
                DeviceError::GetFailed(told),
            ) && told@ == "No 'frame duration limits' control"@,
            Some(limits) => match (limits.min, limits.max, limits.default) {
                (
                    ControlValue::Int64(min),
                    ControlValue::Int64(max),
                    ControlValue::Int64(default),
                ) => {
                    &&& responses@[0] matches CameraCmdResponse::Formats(list)
                    &&& is_array(list.entries)
                    &&& array_dicts(list.entries) == format_entries(formats@)
                    &&& list.intervals.min == min@[0]
                    &&& list.intervals.max == max@[0]
                    &&& list.intervals.default == default@[0]
                },
                _ => responses@[0] matches CameraCmdResponse::DeviceError(
                    DeviceError::GetFailed(told),
                ) && told@ == "Unexpected types for frame duration limits"@,
            },
        },
{
    lemma_views(responses@);
}

/// A camera that is acquired is held. It is configured unless that was tried before, and
/// else the stream is read.
pub proof fn law_camera_acquired<H: ?Sized>(
    worker: &mut LinuxCameraWorker<H>,
    responses: Vec<CameraCmdResponse>,
)
    requires
        call_ensures(
            LinuxCameraWorker::<H>::handle,
            (worker, WorkerEvent::CameraAcquired),
            responses,
        ),
    ensures
        *final(worker) == (LinuxCameraWorker {
            camera: true,
            ..now_awaiting(
                *old(worker),
                if old(worker).config_applied {
                    Action::ReadStream
                } else {
                    Action::ConfigureCamera
                },
            )
        }),
        responses@.len() == 0,
{
    lemma_views(responses@);
}

/// A camera that cannot be acquired fails the start, with the whole report.
pub proof fn law_acquire_failed<H: ?Sized>(
    worker: &mut LinuxCameraWorker<H>,
    report: String,
    responses: Vec<CameraCmdResponse>,
)
    requires
        call_ensures(
            LinuxCameraWorker::<H>::handle,
            (worker, WorkerEvent::AcquireFailed(report)),
            responses,
        ),
    ensures
        *final(worker) == now_awaiting(*old(worker), Action::ReceiveCommand),
        one_start_error(responses@, "Acqurie failed. error: "@ + report@),
{
    lemma_views(responses@);
}

/// A configuration that the camera takes counts as applied, and the stream is read.
pub proof fn law_configured<H: ?Sized>(
    worker: &mut LinuxCameraWorker<H>,
    responses: Vec<CameraCmdResponse>,
)
    requires
        call_ensures(
            LinuxCameraWorker::<H>::handle,
            (worker, WorkerEvent::Configured),
            responses,
        ),
    ensures
        *final(worker) == (LinuxCameraWorker {
            config_applied: true,
            ..now_awaiting(*old(worker), Action::ReadStream)
        }),
        responses@.len() == 0,
{
    lemma_views(responses@);
}

/// A configuration that the camera does not take counts as applied too, and fails the
/// start, with the whole report.
pub proof fn law_configure_failed<H: ?Sized>(
    worker: &mut LinuxCameraWorker<H>,
    report: String,
    responses: Vec<CameraCmdResponse>,
)
    requires
        call_ensures(
            LinuxCameraWorker::<H>::handle,
            (worker, WorkerEvent::ConfigureFailed(report)),
            responses,
        ),
    ensures
        *final(worker) == (LinuxCameraWorker {
            config_applied: true,
            ..now_awaiting(*old(worker), Action::ReceiveCommand)
        }),
        one_start_error(responses@, "Configuration failed. error: "@ + report@),
{
    lemma_views(responses@);
}

/// A stream of pixels is opened with a layout of its own size and format, and its frames
/// are to go to the output handler. A stream of anything else fails the start, with the
/// whole name of its format.
pub proof fn law_stream_read<H: ?Sized>(
    worker: &mut LinuxCameraWorker<H>,
    size: Size,
    fourcc: u32,
    name: String,
    responses: Vec<CameraCmdResponse>,
)
    requires
        call_ensures(
            LinuxCameraWorker::<H>::handle,
            (worker, WorkerEvent::StreamRead { size, fourcc, name }),
            responses,
        ),
    ensures
        fourcc == FOURCC_NV12 || fourcc == FOURCC_YU12 || fourcc == FOURCC_YUYV ==> {
            let format = if fourcc == FOURCC_NV12 {
                PixelFormat::NV12
            } else if fourcc == FOURCC_YU12 {
                PixelFormat::YV12
            } else {
                PixelFormat::YUYV
            };
            let desc = FrameDescription { format, width: size.width, height: size.height };
            &&& *final(worker) == (LinuxCameraWorker {
                capture_handler: old(worker).output_handler,
                ..now_awaiting(*old(worker), Action::OpenStream(desc))
            })
            &&& responses@.len() == 0
        },
        fourcc != FOURCC_NV12 && fourcc != FOURCC_YU12 && fourcc != FOURCC_YUYV ==> {
            &&& *final(worker) == now_awaiting(*old(worker), Action::ReceiveCommand)
            &&& one_start_error(responses@, "Unsupported pixel format. "@ + name@)
        },
{
    lemma_views(responses@);
}

/// A stream that is opened has a request channel, and a request is created for the first
/// of its buffers. Without buffers the camera is started at once.
pub proof fn law_stream_opened<H: ?Sized>(
    worker: &mut LinuxCameraWorker<H>,
    buffers: usize,
    responses: Vec<CameraCmdResponse>,
)
    requires
        call_ensures(
            LinuxCameraWorker::<H>::handle,
            (worker, WorkerEvent::StreamOpened { buffers }),
            responses,
        ),
    ensures
        *final(worker) == (LinuxCameraWorker {
            request_channel: true,
            ..now_awaiting(
                *old(worker),
                if buffers == 0 {
                    Action::StartCamera(0)
                } else {
                    Action::CreateRequest(BufferPlace { index: 0, count: buffers })
                },
            )
        }),
        responses@.len() == 0,
{
    lemma_views(responses@);
}

/// After the request for a buffer comes that for the next one. After the last the camera is
/// started, with as many requests as there are buffers.
pub proof fn law_request_created<H: ?Sized>(
    worker: &mut LinuxCameraWorker<H>,
    index: usize,
    count: usize,
    responses: Vec<CameraCmdResponse>,
)
    requires
        old(worker).awaiting == Action::CreateRequest(BufferPlace { index, count }),
        index < count,
        call_ensures(
            LinuxCameraWorker::<H>::handle,
            (worker, WorkerEvent::RequestCreated),
            responses,
        ),
    ensures
        *final(worker) == now_awaiting(
            *old(worker),
            if index == count - 1 {
                Action::StartCamera(count)
            } else {
                Action::CreateRequest(BufferPlace { index: (index + 1) as usize, count })
            },
        ),
        responses@.len() == 0,
{
    lemma_views(responses@);
}

/// When the camera is started the request for the first buffer is queued. Without buffers
/// capture runs at once.
pub proof fn law_camera_started<H: ?Sized>(
    worker: &mut LinuxCameraWorker<H>,
    count: usize,
    responses: Vec<CameraCmdResponse>,
)
    requires
        old(worker).awaiting == Action::StartCamera(count),
        call_ensures(
            LinuxCameraWorker::<H>::handle,
            (worker, WorkerEvent::CameraStarted),
            responses,
        ),
    ensures
        count > 0 ==> {
            &&& *final(worker) == now_awaiting(
                *old(worker),
                Action::SubmitRequest(BufferPlace { index: 0, count }),
            )
            &&& responses@.len() == 0
        },
        count == 0 ==> {
            &&& *final(worker) == (LinuxCameraWorker {
                running: true,
                ..now_awaiting(*old(worker), Action::ReceiveCommand)
            })
            &&& one_acknowledgement(responses@)
        },
{
    lemma_views(responses@);
}

/// A camera that cannot be started fails the start, with the whole report.
pub proof fn law_start_failed<H: ?Sized>(
    worker: &mut LinuxCameraWorker<H>,
    report: String,
    responses: Vec<CameraCmdResponse>,
)
    requires
        call_ensures(
            LinuxCameraWorker::<H>::handle,
            (worker, WorkerEvent::StartFailed(report)),
            responses,
        ),
    ensures
        *final(worker) == now_awaiting(*old(worker), Action::ReceiveCommand),
        one_start_error(responses@, report@),
{
    lemma_views(responses@);
}

/// After the request for a buffer that for the next one is queued. After the last capture
/// runs, and the start is answered as done.
pub proof fn law_request_submitted<H: ?Sized>(
    worker: &mut LinuxCameraWorker<H>,
    index: usize,
    count: usize,
    responses: Vec<CameraCmdResponse>,
)
    requires
        old(worker).awaiting == Action::SubmitRequest(BufferPlace { index, count }),
        index < count,
        call_ensures(
            LinuxCameraWorker::<H>::handle,
            (worker, WorkerEvent::RequestSubmitted),
            responses,
        ),
    ensures
        index + 1 < count ==> {
            &&& *final(worker) == now_awaiting(
                *old(worker),
                Action::SubmitRequest(BufferPlace { index: (index + 1) as usize, count }),
            )
            &&& responses@.len() == 0
        },
        index + 1 == count ==> {
            &&& *final(worker) == (LinuxCameraWorker {
                running: true,
                ..now_awaiting(*old(worker), Action::ReceiveCommand)
            })
            &&& one_acknowledgement(responses@)
        },
{
    lemma_views(responses@);
}

/// When the camera is stopped capture no longer runs.
pub proof fn law_camera_stopped<H: ?Sized>(
    worker: &mut LinuxCameraWorker<H>,
    responses: Vec<CameraCmdResponse>,
)
    requires
        call_ensures(
            LinuxCameraWorker::<H>::handle,
            (worker, WorkerEvent::CameraStopped),
            responses,
        ),
    ensures
        *final(worker) == (LinuxCameraWorker {
            running: false,
            ..now_awaiting(*old(worker), Action::ReceiveCommand)
        }),
        one_acknowledgement(responses@),
{
    lemma_views(responses@);
}

/// When the camera cannot be stopped capture no longer runs either. That is answered with
/// the whole report, and then as done.
pub proof fn law_stop_failed<H: ?Sized>(
    worker: &mut LinuxCameraWorker<H>,
    report: String,
    responses: Vec<CameraCmdResponse>,
)
    requires
        call_ensures(
            LinuxCameraWorker::<H>::handle,
            (worker, WorkerEvent::StopFailed(report)),
            responses,
        ),
    ensures
        *final(worker) == (LinuxCameraWorker {
            running: false,
            ..now_awaiting(*old(worker), Action::ReceiveCommand)
        }),
        responses@.len() == 2,
        responses@[0] matches CameraCmdResponse::DeviceError(DeviceError::StopFailed(told))
            && told@ == report@,
        responses@[1] is Done,
{
    lemma_views(responses@);
}

/// Settings that are on the stream are answered as done, and it is seen to whether the
/// answer was sent.
pub proof fn law_stream_set<H: ?Sized>(
    worker: &mut LinuxCameraWorker<H>,
    actual: Size,
    responses: Vec<CameraCmdResponse>,
)
    requires
        call_ensures(
            LinuxCameraWorker::<H>::handle,
            (worker, WorkerEvent::StreamSet(actual)),
            responses,
        ),
    ensures
        *final(worker) == now_awaiting(*old(worker), Action::CheckAnswer),
        one_acknowledgement(responses@),
{
    lemma_views(responses@);
}

/// When the answer was sent the worker looks for commands again.
pub proof fn law_answer_sent<H: ?Sized>(
    worker: &mut LinuxCameraWorker<H>,
    responses: Vec<CameraCmdResponse>,
)
    requires
        call_ensures(
            LinuxCameraWorker::<H>::handle,
            (worker, WorkerEvent::AnswerSent),
            responses,
        ),
    ensures
        *final(worker) == now_awaiting(*old(worker), Action::ReceiveCommand),
        responses@.len() == 0,
{
    lemma_views(responses@);
}

/// A worker takes what comes of the action that it waits for, whatever was reported, and
/// nothing else. Left out are options with a format that the backend does not deal in,
/// an empty row of integers among limits that are all rows of integers, a stream of
/// pixels that has none, and a stream with another size than the one that was set.
pub proof fn law_accepts<H: ?Sized>(
    worker: &LinuxCameraWorker<H>,
    event: &WorkerEvent<H>,
    accepted: bool,
)
    requires
        call_ensures(LinuxCameraWorker::<H>::accepts, (worker, event), accepted),
    ensures
        accepted == worker.allows(*event),
        accepted == match (worker.awaiting, *event) {
            (
                Action::ReceiveCommand,
                WorkerEvent::Command(CameraCmd::Configure(options)),
            ) => requested_fourcc(dict_numbers(options).get("format"@)) is Some,
            (Action::ReceiveCommand, WorkerEvent::Command(_)) => true,
            (Action::ReceiveCommand, WorkerEvent::NoCommand) => true,
            (Action::AwaitRequest, WorkerEvent::RequestCompleted) => true,
            (Action::AwaitRequest, WorkerEvent::RequestTimedOut) => true,
            (Action::RequeueRequest, WorkerEvent::RequestQueued) => true,
            (Action::RequeueRequest, WorkerEvent::QueueFailed) => true,
            (Action::ReadFormats, WorkerEvent::FormatsRead { formats, limits }) => match limits {
                None => true,
                Some(limits) => match (limits.min, limits.max, limits.default) {
                    (
                        ControlValue::Int64(min),
                        ControlValue::Int64(max),
                        ControlValue::Int64(default),
                    ) => min@.len() > 0 && max@.len() > 0 && default@.len() > 0,
                    _ => true,
                },
            },
            (Action::AcquireCamera, WorkerEvent::CameraAcquired) => true,
            (Action::AcquireCamera, WorkerEvent::AcquireFailed(_)) => true,
            (Action::ConfigureCamera, WorkerEvent::Configured) => true,
            (Action::ConfigureCamera, WorkerEvent::ConfigureFailed(_)) => true,
            (Action::ReadStream, WorkerEvent::StreamRead { size, fourcc, name }) => fourcc
                == FOURCC_NV12 || fourcc == FOURCC_YU12 || fourcc == FOURCC_YUYV ==> size.width > 0
                && size.height > 0,
            (Action::OpenStream(_), WorkerEvent::StreamOpened { buffers }) => true,
            (Action::CreateRequest(place), WorkerEvent::RequestCreated) => place.index
                < place.count,
            (Action::StartCamera(_), WorkerEvent::CameraStarted) => true,
            (Action::StartCamera(_), WorkerEvent::StartFailed(_)) => true,
            (Action::SubmitRequest(place), WorkerEvent::RequestSubmitted) => place.index
                < place.count,
            (Action::StopCamera, WorkerEvent::CameraStopped) => true,
            (Action::StopCamera, WorkerEvent::StopFailed(_)) => true,
            (Action::SetStream(settings), WorkerEvent::StreamSet(actual)) => match settings.size {
                Some(size) => size == actual,
                None => true,
            },
            (Action::CheckAnswer, WorkerEvent::AnswerSent) => true,
            (Action::CheckAnswer, WorkerEvent::AnswerLost) => true,
            _ => false,
        },
{
}

/// `handle` can be called with any event that is accepted.
pub proof fn law_handle_can_be_called<H: ?Sized>(
    worker: &mut LinuxCameraWorker<H>,
    event: WorkerEvent<H>,
)
    requires
        call_ensures(LinuxCameraWorker::<H>::accepts, (&*old(worker), &event), true),
    ensures
        call_requires(LinuxCameraWorker::<H>::handle, (worker, event)),
{
}

/// The request for a buffer carries the number of buffers before it.
pub proof fn law_cookie(place: &BufferPlace, cookie: u64)
    requires
        call_ensures(BufferPlace::cookie, (place,), cookie),
    ensures
        cookie == place.index,
{
}

} // verus!
