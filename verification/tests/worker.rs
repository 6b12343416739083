use std::sync::Arc;

use linux_camera::command::{CameraCmd, CameraCmdResponse, FormatList};
use linux_camera::error::DeviceError;
use linux_camera::formats::{list_formats, CameraFormat, ControlValue, FrameDurationLimits, FrameIntervals, Size};
use linux_camera::fourcc::{FOURCC_MJPEG, FOURCC_NV12, FOURCC_YU12, FOURCC_YUYV};
use linux_camera::frame::FrameDescription;
use linux_camera::settings::StreamSettings;
use linux_camera::video::PixelFormat;
use linux_camera::worker::{Action, BufferPlace, LinuxCameraWorker, WorkerEvent, REQUEST_TIMEOUT_MILLIS};
use x_variant::Variant;

type Worker = LinuxCameraWorker<u8>;
type Event = WorkerEvent<u8>;
type Command = CameraCmd<u8>;

fn step(worker: &mut Worker, event: Event) -> Vec<CameraCmdResponse> {
    assert!(worker.accepts(&event));
    worker.handle(event)
}

fn command(worker: &mut Worker, command: Command) -> Vec<CameraCmdResponse> {
    step(worker, WorkerEvent::Command(command))
}

fn start_failed(message: &str) -> Vec<CameraCmdResponse> {
    vec![CameraCmdResponse::DeviceError(DeviceError::StartFailed(message.to_string()))]
}

fn done() -> Vec<CameraCmdResponse> {
    vec![CameraCmdResponse::Done]
}

fn stream(fourcc: u32) -> Event {
    WorkerEvent::StreamRead { size: Size { width: 640, height: 480 }, fourcc, name: "NV12".to_string() }
}

fn place(index: usize, count: usize) -> BufferPlace {
    BufferPlace { index, count }
}

/// A worker whose capture runs.
fn running_worker() -> Worker {
    let mut worker = Worker::new();
    start(&mut worker);
    worker
}

/// Starts a worker for the first time, on a stream of two buffers.
fn start(worker: &mut Worker) {
    assert_eq!(command(worker, CameraCmd::Start), vec![]);
    assert_eq!(worker.awaiting, Action::AcquireCamera);
    assert_eq!(step(worker, WorkerEvent::CameraAcquired), vec![]);
    assert_eq!(worker.awaiting, Action::ConfigureCamera);
    assert_eq!(step(worker, WorkerEvent::Configured), vec![]);
    open_and_start(worker);
}

/// Takes a start from the stream on.
fn open_and_start(worker: &mut Worker) {
    assert_eq!(worker.awaiting, Action::ReadStream);
    assert_eq!(step(worker, stream(FOURCC_NV12)), vec![]);
    let desc = FrameDescription { format: PixelFormat::NV12, width: 640, height: 480 };
    assert_eq!(worker.awaiting, Action::OpenStream(desc));
    assert_eq!(step(worker, WorkerEvent::StreamOpened { buffers: 2 }), vec![]);
    assert_eq!(worker.awaiting, Action::CreateRequest(place(0, 2)));
    assert_eq!(step(worker, WorkerEvent::RequestCreated), vec![]);
    assert_eq!(worker.awaiting, Action::CreateRequest(place(1, 2)));
    assert_eq!(step(worker, WorkerEvent::RequestCreated), vec![]);
    assert_eq!(worker.awaiting, Action::StartCamera(2));
    assert_eq!(step(worker, WorkerEvent::CameraStarted), vec![]);
    assert_eq!(worker.awaiting, Action::SubmitRequest(place(0, 2)));
    assert_eq!(step(worker, WorkerEvent::RequestSubmitted), vec![]);
    assert_eq!(worker.awaiting, Action::SubmitRequest(place(1, 2)));
    assert!(!worker.running);
    assert_eq!(step(worker, WorkerEvent::RequestSubmitted), done());
    assert_eq!(worker.awaiting, Action::ReceiveCommand);
}

#[test]
fn a_request_is_waited_for_a_quarter_of_a_second() {
    assert_eq!(REQUEST_TIMEOUT_MILLIS, 250);
}

#[test]
fn a_new_worker_has_done_nothing() {
    let worker = Worker::new();
    assert_eq!(
        worker,
        LinuxCameraWorker {
            running: false,
            shutdown: false,
            camera: false,
            request_channel: false,
            output_handler: None,
            capture_handler: None,
            config_applied: false,
            awaiting: Action::ReceiveCommand,
        }
    );
}

#[test]
fn a_start_makes_capture_run() {
    let worker = running_worker();
    assert!(worker.running);
    assert!(worker.camera);
    assert!(worker.request_channel);
    assert!(worker.config_applied);
    assert!(!worker.shutdown);
}

#[test]
fn each_pixel_format_can_be_started() {
    for (fourcc, format) in
        [(FOURCC_NV12, PixelFormat::NV12), (FOURCC_YU12, PixelFormat::YV12), (FOURCC_YUYV, PixelFormat::YUYV)]
    {
        let mut worker = Worker::new();
        command(&mut worker, CameraCmd::Start);
        step(&mut worker, WorkerEvent::CameraAcquired);
        step(&mut worker, WorkerEvent::Configured);
        step(&mut worker, stream(fourcc));
        assert_eq!(worker.awaiting, Action::OpenStream(FrameDescription { format, width: 640, height: 480 }));
    }
}

#[test]
fn a_start_while_running_is_refused() {
    let mut worker = running_worker();
    assert_eq!(command(&mut worker, CameraCmd::Start), start_failed("Already running"));
    assert_eq!(worker, running_worker());
}

#[test]
fn a_camera_that_cannot_be_acquired_is_reported() {
    let mut worker = Worker::new();
    command(&mut worker, CameraCmd::Start);
    let answers = step(&mut worker, WorkerEvent::AcquireFailed("Busy".to_string()));
    assert_eq!(answers, start_failed("Acqurie failed. error: Busy"));
    assert_eq!(worker, Worker::new());
}

#[test]
fn a_configuration_is_tried_once() {
    let mut worker = Worker::new();
    command(&mut worker, CameraCmd::Start);
    step(&mut worker, WorkerEvent::CameraAcquired);
    let answers = step(&mut worker, WorkerEvent::ConfigureFailed("Invalid".to_string()));
    assert_eq!(answers, start_failed("Configuration failed. error: Invalid"));
    assert!(worker.config_applied);
    assert!(worker.camera);
    assert!(!worker.running);
    command(&mut worker, CameraCmd::Start);
    step(&mut worker, WorkerEvent::CameraAcquired);
    assert_eq!(worker.awaiting, Action::ReadStream);
}

#[test]
fn a_stream_without_pixels_cannot_be_started() {
    for fourcc in [FOURCC_MJPEG, 0] {
        let mut worker = Worker::new();
        command(&mut worker, CameraCmd::Start);
        step(&mut worker, WorkerEvent::CameraAcquired);
        step(&mut worker, WorkerEvent::Configured);
        let answers = step(
            &mut worker,
            WorkerEvent::StreamRead { size: Size { width: 0, height: 0 }, fourcc, name: "MJPEG".to_string() },
        );
        assert_eq!(answers, start_failed("Unsupported pixel format. MJPEG"));
        assert_eq!(worker.awaiting, Action::ReceiveCommand);
        assert!(!worker.request_channel);
        assert!(worker.camera);
    }
}

#[test]
fn a_camera_that_does_not_start_is_reported() {
    let mut worker = Worker::new();
    command(&mut worker, CameraCmd::Start);
    step(&mut worker, WorkerEvent::CameraAcquired);
    step(&mut worker, WorkerEvent::Configured);
    step(&mut worker, stream(FOURCC_YUYV));
    step(&mut worker, WorkerEvent::StreamOpened { buffers: 1 });
    step(&mut worker, WorkerEvent::RequestCreated);
    let answers = step(&mut worker, WorkerEvent::StartFailed("No device".to_string()));
    assert_eq!(answers, start_failed("No device"));
    assert!(!worker.running);
    assert!(worker.request_channel);
    assert_eq!(step(&mut worker, WorkerEvent::NoCommand), vec![]);
    assert_eq!(worker.awaiting, Action::AwaitRequest);
}

#[test]
fn a_stop_undoes_a_start() {
    let mut worker = running_worker();
    assert_eq!(command(&mut worker, CameraCmd::Stop), vec![]);
    assert_eq!(worker.awaiting, Action::StopCamera);
    assert!(!worker.camera);
    assert_eq!(step(&mut worker, WorkerEvent::CameraStopped), done());
    assert!(!worker.running);
    let again = command(&mut worker, CameraCmd::Start);
    assert_eq!(again, vec![]);
    step(&mut worker, WorkerEvent::CameraAcquired);
    assert_eq!(worker.awaiting, Action::ReadStream);
}

#[test]
fn a_stop_without_a_camera_is_refused() {
    let mut worker = Worker::new();
    let refusal = vec![CameraCmdResponse::DeviceError(DeviceError::NotRunning("Not running".to_string()))];
    assert_eq!(command(&mut worker, CameraCmd::Stop), refusal);
    assert_eq!(worker, Worker::new());
}

#[test]
fn a_failed_stop_is_answered_twice() {
    let mut worker = running_worker();
    command(&mut worker, CameraCmd::Stop);
    let answers = step(&mut worker, WorkerEvent::StopFailed("Stuck".to_string()));
    let error = CameraCmdResponse::DeviceError(DeviceError::StopFailed("Stuck".to_string()));
    assert_eq!(answers, vec![error, CameraCmdResponse::Done]);
    assert!(!worker.running);
    assert!(!worker.camera);
}

#[test]
fn the_last_output_handler_counts() {
    let mut worker = Worker::new();
    assert_eq!(command(&mut worker, CameraCmd::SetOutputHandler(Arc::new(1))), done());
    assert_eq!(command(&mut worker, CameraCmd::SetOutputHandler(Arc::new(2))), done());
    assert_eq!(worker.output_handler, Some(Arc::new(2)));
    command(&mut worker, CameraCmd::Start);
    step(&mut worker, WorkerEvent::AcquireFailed("Busy".to_string()));
    assert_eq!(worker.output_handler, Some(Arc::new(2)));
}

#[test]
fn a_run_keeps_its_handler() {
    let mut worker = Worker::new();
    command(&mut worker, CameraCmd::SetOutputHandler(Arc::new(1)));
    assert_eq!(worker.capture_handler, None);
    start(&mut worker);
    assert_eq!(worker.capture_handler, Some(Arc::new(1)));
    assert_eq!(command(&mut worker, CameraCmd::SetOutputHandler(Arc::new(2))), done());
    assert_eq!(worker.capture_handler, Some(Arc::new(1)));
    step(&mut worker, WorkerEvent::NoCommand);
    step(&mut worker, WorkerEvent::RequestCompleted);
    step(&mut worker, WorkerEvent::RequestQueued);
    assert_eq!(worker.capture_handler, Some(Arc::new(1)));
    command(&mut worker, CameraCmd::Stop);
    step(&mut worker, WorkerEvent::CameraStopped);
    command(&mut worker, CameraCmd::Start);
    step(&mut worker, WorkerEvent::CameraAcquired);
    open_and_start(&mut worker);
    assert_eq!(worker.capture_handler, Some(Arc::new(2)));
}

#[test]
fn a_run_shares_its_handler() {
    let mut worker = Worker::new();
    let handler = Arc::new(7);
    command(&mut worker, CameraCmd::SetOutputHandler(Arc::clone(&handler)));
    start(&mut worker);
    assert!(Arc::ptr_eq(&handler, worker.capture_handler.as_ref().unwrap()));
    assert!(Arc::ptr_eq(&handler, worker.output_handler.as_ref().unwrap()));
}

#[test]
fn a_run_without_a_handler_stays_without_one() {
    let mut worker = running_worker();
    command(&mut worker, CameraCmd::SetOutputHandler(Arc::new(2)));
    assert_eq!(worker.capture_handler, None);
    assert_eq!(worker.output_handler, Some(Arc::new(2)));
}

#[test]
fn a_stream_without_buffers_has_no_requests() {
    let mut worker = Worker::new();
    command(&mut worker, CameraCmd::Start);
    step(&mut worker, WorkerEvent::CameraAcquired);
    step(&mut worker, WorkerEvent::Configured);
    step(&mut worker, stream(FOURCC_NV12));
    step(&mut worker, WorkerEvent::StreamOpened { buffers: 0 });
    assert_eq!(worker.awaiting, Action::StartCamera(0));
    assert_eq!(step(&mut worker, WorkerEvent::CameraStarted), done());
    assert!(worker.running);
}

#[test]
fn requests_are_numbered_by_their_buffers() {
    assert_eq!(place(0, 3).cookie(), 0);
    assert_eq!(place(2, 3).cookie(), 2);
}

#[test]
fn a_new_worker_has_nothing_to_stop() {
    let mut worker = Worker::new();
    command(&mut worker, CameraCmd::SetOutputHandler(Arc::new(1)));
    command(&mut worker, CameraCmd::Start);
    step(&mut worker, WorkerEvent::AcquireFailed("Busy".to_string()));
    let refusal = vec![CameraCmdResponse::DeviceError(DeviceError::NotRunning("Not running".to_string()))];
    assert_eq!(command(&mut worker, CameraCmd::Stop), refusal);
    assert_eq!(worker.capture_handler, None);
}

#[test]
fn requests_of_a_held_camera_are_queued_again_without_capture() {
    let mut worker = Worker::new();
    command(&mut worker, CameraCmd::Start);
    step(&mut worker, WorkerEvent::CameraAcquired);
    step(&mut worker, WorkerEvent::Configured);
    step(&mut worker, stream(FOURCC_NV12));
    step(&mut worker, WorkerEvent::StreamOpened { buffers: 0 });
    step(&mut worker, WorkerEvent::StartFailed("No device".to_string()));
    step(&mut worker, WorkerEvent::NoCommand);
    step(&mut worker, WorkerEvent::RequestCompleted);
    assert!(!worker.running);
    assert_eq!(worker.awaiting, Action::RequeueRequest);
}

#[test]
fn options_become_stream_settings() {
    let mut worker = Worker::new();
    let mut options = Variant::new_dict();
    options["width"] = 320u32.into();
    options["height"] = 240u32.into();
    options["format"] = 15u32.into();
    assert_eq!(command(&mut worker, CameraCmd::Configure(options)), vec![]);
    let size = Size { width: 320, height: 240 };
    assert_eq!(worker.awaiting, Action::SetStream(StreamSettings { size: Some(size), fourcc: FOURCC_YU12 }));
    assert!(!worker.accepts(&WorkerEvent::StreamSet(Size { width: 320, height: 200 })));
    assert_eq!(step(&mut worker, WorkerEvent::StreamSet(size)), done());
    assert_eq!(worker.awaiting, Action::CheckAnswer);
    assert_eq!(step(&mut worker, WorkerEvent::AnswerSent), vec![]);
    assert_eq!(worker, Worker::new());
}

#[test]
fn a_lost_answer_ends_the_commands_of_the_round() {
    let mut worker = running_worker();
    command(&mut worker, CameraCmd::Configure(Variant::None));
    assert_eq!(worker.awaiting, Action::SetStream(StreamSettings { size: None, fourcc: FOURCC_YUYV }));
    step(&mut worker, WorkerEvent::StreamSet(Size { width: 1, height: 2 }));
    assert_eq!(step(&mut worker, WorkerEvent::AnswerLost), vec![]);
    assert_eq!(worker.awaiting, Action::AwaitRequest);
    let mut idle = Worker::new();
    command(&mut idle, CameraCmd::Configure(Variant::None));
    step(&mut idle, WorkerEvent::StreamSet(Size { width: 1, height: 2 }));
    step(&mut idle, WorkerEvent::AnswerLost);
    assert_eq!(idle, Worker::new());
}

#[test]
fn unsupported_formats_are_not_accepted() {
    let mut options = Variant::new_dict();
    options["format"] = 1u32.into();
    assert!(!Worker::new().accepts(&WorkerEvent::Command(CameraCmd::Configure(options))));
}

#[test]
fn formats_are_listed_with_their_intervals() {
    let formats = || vec![CameraFormat { fourcc: FOURCC_NV12, sizes: vec![Size { width: 4, height: 2 }] }];
    let mut worker = Worker::new();
    assert_eq!(command(&mut worker, CameraCmd::GetFormats), vec![]);
    assert_eq!(worker.awaiting, Action::ReadFormats);
    let limits = FrameDurationLimits {
        min: ControlValue::Int64(vec![10]),
        max: ControlValue::Int64(vec![30]),
        default: ControlValue::Int64(vec![20]),
    };
    let answers = step(&mut worker, WorkerEvent::FormatsRead { formats: formats(), limits: Some(limits) });
    let intervals = FrameIntervals { max: 30, min: 10, default: 20 };
    let list = FormatList { entries: list_formats(&formats()), intervals };
    assert_eq!(answers, vec![CameraCmdResponse::Formats(list)]);
    assert_eq!(worker, Worker::new());
}

#[test]
fn formats_without_limits_are_refused() {
    let refusal = |message: &str| vec![CameraCmdResponse::DeviceError(DeviceError::GetFailed(message.to_string()))];
    let mut worker = Worker::new();
    command(&mut worker, CameraCmd::GetFormats);
    let answers = step(&mut worker, WorkerEvent::FormatsRead { formats: vec![], limits: None });
    assert_eq!(answers, refusal("No 'frame duration limits' control"));
    command(&mut worker, CameraCmd::GetFormats);
    let limits =
        FrameDurationLimits { min: ControlValue::Other, max: ControlValue::Other, default: ControlValue::Other };
    let answers = step(&mut worker, WorkerEvent::FormatsRead { formats: vec![], limits: Some(limits) });
    assert_eq!(answers, refusal("Unexpected types for frame duration limits"));
    assert_eq!(worker, Worker::new());
}

#[test]
fn limits_without_a_number_are_not_accepted() {
    let mut worker = Worker::new();
    command(&mut worker, CameraCmd::GetFormats);
    let limits = FrameDurationLimits {
        min: ControlValue::Int64(vec![]),
        max: ControlValue::Int64(vec![1]),
        default: ControlValue::Int64(vec![1]),
    };
    assert!(!worker.accepts(&WorkerEvent::FormatsRead { formats: vec![], limits: Some(limits) }));
}

#[test]
fn completed_requests_are_queued_again() {
    let mut worker = running_worker();
    step(&mut worker, WorkerEvent::NoCommand);
    assert_eq!(worker.awaiting, Action::AwaitRequest);
    assert_eq!(step(&mut worker, WorkerEvent::RequestCompleted), vec![]);
    assert_eq!(worker.awaiting, Action::RequeueRequest);
    assert_eq!(step(&mut worker, WorkerEvent::RequestQueued), vec![]);
    assert_eq!(worker, running_worker());
    step(&mut worker, WorkerEvent::NoCommand);
    step(&mut worker, WorkerEvent::RequestTimedOut);
    assert_eq!(worker, running_worker());
}

#[test]
fn completed_requests_of_a_stopped_camera_are_dropped() {
    let mut worker = running_worker();
    command(&mut worker, CameraCmd::Stop);
    step(&mut worker, WorkerEvent::CameraStopped);
    step(&mut worker, WorkerEvent::NoCommand);
    assert_eq!(worker.awaiting, Action::AwaitRequest);
    step(&mut worker, WorkerEvent::RequestCompleted);
    assert_eq!(worker.awaiting, Action::ReceiveCommand);
}

#[test]
fn a_request_that_cannot_be_queued_ends_the_worker() {
    let mut worker = running_worker();
    step(&mut worker, WorkerEvent::NoCommand);
    step(&mut worker, WorkerEvent::RequestCompleted);
    assert_eq!(step(&mut worker, WorkerEvent::QueueFailed), vec![]);
    assert_eq!(worker.awaiting, Action::Exit);
}

#[test]
fn an_idle_worker_looks_for_commands() {
    let mut worker = Worker::new();
    step(&mut worker, WorkerEvent::NoCommand);
    assert_eq!(worker, Worker::new());
}

#[test]
fn a_shutdown_is_final() {
    let mut worker = Worker::new();
    assert_eq!(command(&mut worker, CameraCmd::Shutdown), vec![]);
    assert_eq!(worker.awaiting, Action::Exit);
    for last in [WorkerEvent::RequestTimedOut, WorkerEvent::RequestCompleted] {
        let mut worker = running_worker();
        command(&mut worker, CameraCmd::Shutdown);
        assert_eq!(worker.awaiting, Action::AwaitRequest);
        assert!(!worker.accepts(&WorkerEvent::Command(CameraCmd::Start)));
        step(&mut worker, last);
        if worker.awaiting == Action::RequeueRequest {
            step(&mut worker, WorkerEvent::RequestQueued);
        }
        assert_eq!(worker.awaiting, Action::Exit);
        assert!(worker.running);
    }
}

#[test]
fn events_have_to_come_of_the_action() {
    let mut worker = Worker::new();
    assert!(!worker.accepts(&WorkerEvent::CameraAcquired));
    assert!(!worker.accepts(&WorkerEvent::CameraStarted));
    assert!(!worker.accepts(&WorkerEvent::StreamOpened { buffers: 1 }));
    assert!(!worker.accepts(&WorkerEvent::RequestCreated));
    assert!(!worker.accepts(&WorkerEvent::RequestSubmitted));
    assert!(!worker.accepts(&WorkerEvent::CameraStopped));
    assert!(!worker.accepts(&WorkerEvent::RequestCompleted));
    assert!(!worker.accepts(&WorkerEvent::RequestQueued));
    assert!(!worker.accepts(&WorkerEvent::AnswerSent));
    assert!(!worker.accepts(&WorkerEvent::Configured));
    assert!(!worker.accepts(&WorkerEvent::FormatsRead { formats: vec![], limits: None }));
    assert!(worker.accepts(&WorkerEvent::NoCommand));
    command(&mut worker, CameraCmd::Start);
    assert!(!worker.accepts(&WorkerEvent::NoCommand));
    step(&mut worker, WorkerEvent::CameraAcquired);
    step(&mut worker, WorkerEvent::Configured);
    let empty = Size { width: 0, height: 480 };
    assert!(!worker.accepts(&WorkerEvent::StreamRead { size: empty, fourcc: FOURCC_NV12, name: String::new() }));
    assert!(worker.accepts(&WorkerEvent::StreamRead { size: empty, fourcc: FOURCC_MJPEG, name: String::new() }));
}

#[test]
fn answers_come_in_the_order_of_the_commands() {
    let mut worker = Worker::new();
    let mut answers = command(&mut worker, CameraCmd::Stop);
    answers.extend(command(&mut worker, CameraCmd::SetOutputHandler(Arc::new(1))));
    answers.extend(command(&mut worker, CameraCmd::Start));
    answers.extend(step(&mut worker, WorkerEvent::AcquireFailed("Busy".to_string())));
    answers.extend(command(&mut worker, CameraCmd::Configure(Variant::None)));
    answers.extend(step(&mut worker, WorkerEvent::StreamSet(Size { width: 1, height: 1 })));
    answers.extend(step(&mut worker, WorkerEvent::AnswerSent));
    answers.extend(command(&mut worker, CameraCmd::GetFormats));
    answers.extend(step(&mut worker, WorkerEvent::FormatsRead { formats: vec![], limits: None }));
    let kinds: Vec<&str> = answers
        .iter()
        .map(|answer| match answer {
            CameraCmdResponse::Done => "done",
            CameraCmdResponse::DeviceError(DeviceError::NotRunning(_)) => "not running",
            CameraCmdResponse::DeviceError(DeviceError::StartFailed(_)) => "start failed",
            CameraCmdResponse::DeviceError(DeviceError::GetFailed(_)) => "get failed",
            _ => "other",
        })
        .collect();
    assert_eq!(kinds, vec!["not running", "done", "start failed", "done", "get failed"]);
}

#[test]
fn a_camera_is_held_from_start_to_stop() {
    let mut worker = Worker::new();
    command(&mut worker, CameraCmd::Start);
    assert!(!worker.camera);
    step(&mut worker, WorkerEvent::CameraAcquired);
    step(&mut worker, WorkerEvent::ConfigureFailed("Invalid".to_string()));
    assert!(worker.camera);
    command(&mut worker, CameraCmd::Start);
    step(&mut worker, WorkerEvent::AcquireFailed("Busy".to_string()));
    assert!(worker.camera);
    command(&mut worker, CameraCmd::Stop);
    assert!(!worker.camera);
}

#[test]
fn a_worker_stays_unless_told() {
    let mut worker = running_worker();
    for _ in 0..3 {
        step(&mut worker, WorkerEvent::NoCommand);
        step(&mut worker, WorkerEvent::RequestTimedOut);
        assert_eq!(worker.awaiting, Action::ReceiveCommand);
    }
    command(&mut worker, CameraCmd::Stop);
    step(&mut worker, WorkerEvent::StopFailed("Stuck".to_string()));
    assert_eq!(worker.awaiting, Action::ReceiveCommand);
    assert!(!worker.shutdown);
}
