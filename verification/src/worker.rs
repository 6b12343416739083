//! The decisions of the worker that drives one camera.
//!
//! The worker asks for one [`Action`] at a time. Whoever carries it out reports
//! what came of it as a [`WorkerEvent`], sends the answers that the worker gives to
//! it, and goes on with the next action, up to [`Action::Exit`].
use std::sync::Arc;

use vstd::prelude::*;

use crate::command::{
    response_views, CameraCmd, CameraCmdResponse, FormatList, ResponseView,
};
use crate::error::{explain, DeviceError, DeviceErrorView};
use crate::formats::{
    format_entries, frame_intervals, intervals_of, list_formats, CameraFormat,
    FrameDurationLimits, Size,
};
use crate::frame::FrameDescription;
use crate::settings::{optional_settings, read_settings, StreamSettings};
use crate::variant::dict_numbers;
use crate::video::{deliverable, pixel_format_of};

verus! {

/// How long to wait for the camera to complete a request, in milliseconds.
pub const REQUEST_TIMEOUT_MILLIS: u64 = 250;

/// The place of one of the buffers that a stream was given.
#[derive(Clone, Copy, Debug, PartialEq, Eq, Structural)]
pub struct BufferPlace {
    /// How many buffers stand before it.
    pub index: usize,
    /// How many buffers the stream was given.
    pub count: usize,
}

impl BufferPlace {
    /// The place is among the buffers.
    pub open spec fn wf(self) -> bool {
        self.index < self.count
    }

    /// The place of the first of a number of buffers, if there are any.
    pub open spec fn first(count: usize) -> Option<Self> {
        if count > 0 {
            Some(BufferPlace { index: 0, count })
        } else {
            None
        }
    }

    /// The place of the next buffer, if there is one.
    pub open spec fn next(self) -> Option<Self> {
        if self.index + 1 < self.count {
            Some(BufferPlace { index: (self.index + 1) as usize, count: self.count })
        } else {
            None
        }
    }

    /// Finds the place of the first of a number of buffers, if there are any.
    fn first_of(count: usize) -> (place: Option<Self>)
        ensures
            place == Self::first(count),
    {
        if count > 0 {
            Some(BufferPlace { index: 0, count })
        } else {
            None
        }
    }

    /// Finds the place of the next buffer, if there is one.
    fn following(self) -> (place: Option<Self>)
        requires
            self.wf(),
        ensures
            place == self.next(),
    {
        if self.index + 1 < self.count {
            Some(BufferPlace { index: self.index + 1, count: self.count })
        } else {
            None
        }
    }

    /// The number that the request for the buffer carries.
    pub fn cookie(&self) -> (cookie: u64)
        ensures
            cookie == self.index,
    {
        self.index as u64
    }
}

/// What the worker needs done next.
#[derive(Clone, Copy, Debug, PartialEq, Eq, Structural)]
pub enum Action {
    /// Look for a command without waiting for one.
    ReceiveCommand,
    /// Wait for the camera to complete a request, up to `REQUEST_TIMEOUT_MILLIS`.
    AwaitRequest,
    /// Queue the completed request again, reusing its buffers.
    RequeueRequest,
    /// Read the formats and the frame duration limits of the camera.
    ReadFormats,
    /// Acquire the camera.
    AcquireCamera,
    /// Validate the configuration and put it on the acquired camera.
    ConfigureCamera,
    /// Read the size and the pixel format of the configured stream.
    ReadStream,
    /// Open a new request channel, have frames of this layout passed to the capture
    /// handler if there is one, and allocate the buffers of the stream.
    OpenStream(FrameDescription),
    /// Create a request for the buffer at this place, with its number.
    CreateRequest(BufferPlace),
    /// Start the camera, for which this many requests were created.
    StartCamera(usize),
    /// Queue the request for the buffer at this place, for the first time.
    SubmitRequest(BufferPlace),
    /// Stop the camera and let go of it.
    StopCamera,
    /// Put these settings on the stream and read back its size.
    SetStream(StreamSettings),
    /// Tell whether the answer just given could be sent.
    CheckAnswer,
    /// Leave the loop.
    Exit,
}

/// What came of an [`Action`]. A string is what the system reported.
pub enum WorkerEvent<H: ?Sized> {
    /// There was a command.
    Command(CameraCmd<H>),
    /// There was no command.
    NoCommand,
    /// The camera completed a request.
    RequestCompleted,
    /// No request was completed in time.
    RequestTimedOut,
    /// The request is queued again.
    RequestQueued,
    /// The request could not be queued again.
    QueueFailed,
    /// The camera has these formats and these limits, if it has any.
    FormatsRead { formats: Vec<CameraFormat>, limits: Option<FrameDurationLimits> },
    /// The camera is acquired.
    CameraAcquired,
    /// The camera could not be acquired.
    AcquireFailed(String),
    /// The configuration is on the camera.
    Configured,
    /// The camera did not take the configuration.
    ConfigureFailed(String),
    /// The stream has this size and this pixel format, which goes by this name.
    StreamRead { size: Size, fourcc: u32, name: String },
    /// The stream is open and was given this many buffers.
    StreamOpened { buffers: usize },
    /// The request is created.
    RequestCreated,
    /// The camera is started.
    CameraStarted,
    /// The camera could not be started.
    StartFailed(String),
    /// The request is queued for the first time.
    RequestSubmitted,
    /// The camera is stopped.
    CameraStopped,
    /// The camera could not be stopped.
    StopFailed(String),
    /// The settings are on the stream, which has this size now.
    StreamSet(Size),
    /// The answer was sent.
    AnswerSent,
    /// The answer could not be sent.
    AnswerLost,
}

/// The state of a worker. `H` is the handler that frames go to.
#[derive(Debug, PartialEq)]
pub struct LinuxCameraWorker<H: ?Sized> {
    /// Capture was started and not stopped since.
    pub running: bool,
    /// A shutdown was asked for.
    pub shutdown: bool,
    /// The camera is acquired and was not let go of since.
    pub camera: bool,
    /// There is a channel on which completed requests come back.
    pub request_channel: bool,
    /// The handler that frames go to from the next start on.
    pub output_handler: Option<Arc<H>>,
    /// The handler that frames go to: the output handler at the last start that came
    /// to open the stream.
    pub capture_handler: Option<Arc<H>>,
    /// The configuration was put on the camera, if only in an attempt.
    pub config_applied: bool,
    /// What the worker needs done next.
    pub awaiting: Action,
}

impl<H: ?Sized> LinuxCameraWorker<H> {
    /// A worker at the start of its loop, with nothing done yet.
    pub open spec fn initial() -> Self {
        LinuxCameraWorker {
            running: false,
            shutdown: false,
            camera: false,
            request_channel: false,
            output_handler: None,
            capture_handler: None,
            config_applied: false,
            awaiting: Action::ReceiveCommand,
        }
    }

    /// What holds of a worker whatever has happened to it.
    pub open spec fn wf(self) -> bool {
        &&& self.running ==> self.request_channel && self.config_applied && (self.camera
            || self.awaiting is StopCamera)
        &&& self.request_channel ==> self.config_applied
        &&& self.starting() ==> !self.running
        &&& self.awaiting is ConfigureCamera ==> self.camera && !self.config_applied
        &&& self.awaiting is ReadStream ==> self.camera && self.config_applied
        &&& self.awaiting matches Action::OpenStream(desc) ==> self.camera && self.config_applied
            && desc.wf()
        &&& self.awaiting matches Action::CreateRequest(place) ==> self.camera
            && self.request_channel && place.wf()
        &&& self.awaiting is StartCamera ==> self.camera && self.request_channel
        &&& self.awaiting matches Action::SubmitRequest(place) ==> self.camera
            && self.request_channel && place.wf()
        &&& self.awaiting is StopCamera ==> !self.camera
        &&& self.awaiting is AwaitRequest ==> self.request_channel
        &&& self.awaiting is RequeueRequest ==> self.request_channel && self.camera
        &&& self.shutdown ==> self.awaiting is AwaitRequest || self.awaiting is RequeueRequest
            || self.awaiting is Exit
    }

    /// Whether a start command is being carried out.
    pub open spec fn starting(self) -> bool {
        self.awaiting is AcquireCamera || self.awaiting is ConfigureCamera
            || self.awaiting is ReadStream || self.awaiting is OpenStream
            || self.awaiting is CreateRequest || self.awaiting is StartCamera
            || self.awaiting is SubmitRequest
    }

    /// Whether a command is being carried out that has had no answer yet.
    pub open spec fn busy(self) -> bool {
        self.starting() || self.awaiting is ReadFormats || self.awaiting is StopCamera
            || self.awaiting is SetStream
    }

    /// Whether an event can come of the action that the worker waits for. Left out
    /// are a stream without pixels, a stream that did not take the size set on it,
    /// limits without a number, and a request for a format that the backend does not
    /// deal in.
    pub open spec fn allows(self, event: WorkerEvent<H>) -> bool {
        match event {
            WorkerEvent::Command(CameraCmd::Configure(options)) => {
                &&& self.awaiting is ReceiveCommand
                &&& optional_settings(dict_numbers(options)) is Some
            },
            WorkerEvent::Command(_) => self.awaiting is ReceiveCommand,
            WorkerEvent::NoCommand => self.awaiting is ReceiveCommand,
            WorkerEvent::RequestCompleted => self.awaiting is AwaitRequest,
            WorkerEvent::RequestTimedOut => self.awaiting is AwaitRequest,
            WorkerEvent::RequestQueued => self.awaiting is RequeueRequest,
            WorkerEvent::QueueFailed => self.awaiting is RequeueRequest,
            WorkerEvent::FormatsRead { formats, limits } => {
                &&& self.awaiting is ReadFormats
                &&& limits matches Some(limits) ==> limits.wf()
            },
            WorkerEvent::CameraAcquired => self.awaiting is AcquireCamera,
            WorkerEvent::AcquireFailed(_) => self.awaiting is AcquireCamera,
            WorkerEvent::Configured => self.awaiting is ConfigureCamera,
            WorkerEvent::ConfigureFailed(_) => self.awaiting is ConfigureCamera,
            WorkerEvent::StreamRead { size, fourcc, name } => {
                &&& self.awaiting is ReadStream
                &&& deliverable(fourcc) is Some ==> size.width > 0 && size.height > 0
            },
            WorkerEvent::StreamOpened { buffers } => self.awaiting is OpenStream,
            WorkerEvent::RequestCreated => {
                self.awaiting matches Action::CreateRequest(place) && place.wf()
            },
            WorkerEvent::CameraStarted => self.awaiting is StartCamera,
            WorkerEvent::StartFailed(_) => self.awaiting is StartCamera,
            WorkerEvent::RequestSubmitted => {
                self.awaiting matches Action::SubmitRequest(place) && place.wf()
            },
            WorkerEvent::CameraStopped => self.awaiting is StopCamera,
            WorkerEvent::StopFailed(_) => self.awaiting is StopCamera,
            WorkerEvent::StreamSet(actual) => {
                &&& self.awaiting matches Action::SetStream(settings)
                &&& settings.size matches Some(size) ==> size == actual
            },
            WorkerEvent::AnswerSent => self.awaiting is CheckAnswer,
            WorkerEvent::AnswerLost => self.awaiting is CheckAnswer,
        }
    }

    /// The worker when it waits for an action.
    pub open spec fn waiting_for(self, action: Action) -> Self {
        LinuxCameraWorker { awaiting: action, ..self }
    }

    /// The worker at the end of a round: it begins another one unless a shutdown was
    /// asked for.
    pub open spec fn next_round(self) -> Self {
        self.waiting_for(
            if self.shutdown {
                Action::Exit
            } else {
                Action::ReceiveCommand
            },
        )
    }

    /// The worker when it has no more commands to look at in this round: it turns to
    /// the completed requests where there can be any.
    pub open spec fn after_commands(self) -> Self {
        if self.request_channel {
            self.waiting_for(Action::AwaitRequest)
        } else {
            self.next_round()
        }
    }

    /// The worker when requests are created up to a place: it starts the camera when
    /// all of them are.
    pub open spec fn creating(self, place: Option<BufferPlace>, count: usize) -> Self {
        self.waiting_for(
            match place {
                Some(place) => Action::CreateRequest(place),
                None => Action::StartCamera(count),
            },
        )
    }

    /// The worker when requests are queued up to a place: capture runs when all of
    /// them are.
    pub open spec fn submitting(self, place: Option<BufferPlace>) -> Self {
        match place {
            Some(place) => self.waiting_for(Action::SubmitRequest(place)),
            None => LinuxCameraWorker { running: true, awaiting: Action::ReceiveCommand, ..self },
        }
    }

    /// The answers when requests are queued up to a place.
    pub open spec fn submission_answers(place: Option<BufferPlace>) -> Seq<ResponseView> {
        match place {
            Some(_) => Seq::empty(),
            None => seq![ResponseView::Done],
        }
    }

    /// The worker after a command.
    pub open spec fn after_command(self, command: CameraCmd<H>) -> Self {
        match command {
            CameraCmd::GetFormats => self.waiting_for(Action::ReadFormats),
            CameraCmd::Start => if self.running {
                self
            } else {
                self.waiting_for(Action::AcquireCamera)
            },
            CameraCmd::Stop => if self.camera {
                LinuxCameraWorker { camera: false, awaiting: Action::StopCamera, ..self }
            } else {
                self
            },
            CameraCmd::Shutdown => LinuxCameraWorker { shutdown: true, ..self }.after_commands(),
            CameraCmd::SetOutputHandler(handler) => LinuxCameraWorker {
                output_handler: Some(handler),
                ..self
            },
            CameraCmd::Configure(options) => self.waiting_for(
                Action::SetStream(optional_settings(dict_numbers(options))->0),
            ),
        }
    }

    /// The worker after an event.
    pub open spec fn after(self, event: WorkerEvent<H>) -> Self {
        match event {
            WorkerEvent::Command(command) => self.after_command(command),
            WorkerEvent::NoCommand => self.after_commands(),
            WorkerEvent::RequestCompleted => if self.camera {
                self.waiting_for(Action::RequeueRequest)
            } else {
                self.next_round()
            },
            WorkerEvent::RequestTimedOut => self.next_round(),
            WorkerEvent::RequestQueued => self.next_round(),
            WorkerEvent::QueueFailed => self.waiting_for(Action::Exit),
            WorkerEvent::FormatsRead { formats, limits } => self.waiting_for(
                Action::ReceiveCommand,
            ),
            WorkerEvent::CameraAcquired => LinuxCameraWorker {
                camera: true,
                awaiting: if self.config_applied {
                    Action::ReadStream
                } else {
                    Action::ConfigureCamera
                },
                ..self
            },
            WorkerEvent::AcquireFailed(_) => self.waiting_for(Action::ReceiveCommand),
            WorkerEvent::Configured => LinuxCameraWorker {
                config_applied: true,
                awaiting: Action::ReadStream,
                ..self
            },
            WorkerEvent::ConfigureFailed(_) => LinuxCameraWorker {
                config_applied: true,
                awaiting: Action::ReceiveCommand,
                ..self
            },
            WorkerEvent::StreamRead { size, fourcc, name } => match deliverable(fourcc) {
                Some(format) => LinuxCameraWorker {
                    capture_handler: self.output_handler,
                    awaiting: Action::OpenStream(
                        FrameDescription { format, width: size.width, height: size.height },
                    ),
                    ..self
                },
                None => self.waiting_for(Action::ReceiveCommand),
            },
            WorkerEvent::StreamOpened { buffers } => LinuxCameraWorker {
                request_channel: true,
                ..self
            }.creating(BufferPlace::first(buffers), buffers),
            WorkerEvent::RequestCreated => {
                let place = self.awaiting->CreateRequest_0;
                self.creating(place.next(), place.count)
            },
            WorkerEvent::CameraStarted => self.submitting(
                BufferPlace::first(self.awaiting->StartCamera_0),
            ),
            WorkerEvent::StartFailed(_) => self.waiting_for(Action::ReceiveCommand),
            WorkerEvent::RequestSubmitted => self.submitting(
                self.awaiting->SubmitRequest_0.next(),
            ),
            WorkerEvent::CameraStopped => LinuxCameraWorker {
                running: false,
                awaiting: Action::ReceiveCommand,
                ..self
            },
            WorkerEvent::StopFailed(_) => LinuxCameraWorker {
                running: false,
                awaiting: Action::ReceiveCommand,
                ..self
            },
            WorkerEvent::StreamSet(_) => self.waiting_for(Action::CheckAnswer),
            WorkerEvent::AnswerSent => self.waiting_for(Action::ReceiveCommand),
            WorkerEvent::AnswerLost => self.after_commands(),
        }
    }

    /// The answers of the worker to an event.
    pub open spec fn answers(self, event: WorkerEvent<H>) -> Seq<ResponseView> {
        match event {
            WorkerEvent::Command(CameraCmd::Start) => if self.running {
                seq![start_failed("Already running"@)]
            } else {
                Seq::empty()
            },
            WorkerEvent::Command(CameraCmd::Stop) => if self.camera {
                Seq::empty()
            } else {
                seq![ResponseView::DeviceError(DeviceErrorView::NotRunning("Not running"@))]
            },
            WorkerEvent::Command(CameraCmd::SetOutputHandler(_)) => seq![ResponseView::Done],
            WorkerEvent::FormatsRead { formats, limits } => match intervals_of(limits) {
                Ok(intervals) => seq![
                    ResponseView::Formats { entries: format_entries(formats@), intervals },
                ],
                Err(error) => seq![ResponseView::DeviceError(error)],
            },
            WorkerEvent::AcquireFailed(report) => seq![
                start_failed("Acqurie failed. error: "@ + report@),
            ],
            WorkerEvent::ConfigureFailed(report) => seq![
                start_failed("Configuration failed. error: "@ + report@),
            ],
            WorkerEvent::StreamRead { size, fourcc, name } => match deliverable(fourcc) {
                Some(_) => Seq::empty(),
                None => seq![start_failed("Unsupported pixel format. "@ + name@)],
            },
            WorkerEvent::CameraStarted => Self::submission_answers(
                BufferPlace::first(self.awaiting->StartCamera_0),
            ),
            WorkerEvent::StartFailed(report) => seq![start_failed(report@)],
            WorkerEvent::RequestSubmitted => Self::submission_answers(
                self.awaiting->SubmitRequest_0.next(),
            ),
            WorkerEvent::CameraStopped => seq![ResponseView::Done],
            WorkerEvent::StopFailed(report) => seq![
                ResponseView::DeviceError(DeviceErrorView::StopFailed(report@)),
                ResponseView::Done,
            ],
            WorkerEvent::StreamSet(_) => seq![ResponseView::Done],
            _ => Seq::empty(),
        }
    }
}

/// The answer that a start failed.
pub open spec fn start_failed(message: Seq<char>) -> ResponseView {
    ResponseView::DeviceError(DeviceErrorView::StartFailed(message))
}

/// The one answer to a command.
fn answer(response: CameraCmdResponse) -> (responses: Vec<CameraCmdResponse>)
    ensures
        responses@ == seq![response],
        response_views(responses@) == seq![response@],
{
    let mut responses = Vec::new();
    responses.push(response);
    responses
}

/// The answer that a command failed.
fn refuse(error: DeviceError) -> (responses: Vec<CameraCmdResponse>)
    ensures
        response_views(responses@) == seq![ResponseView::DeviceError(error@)],
        responses@.len() == 1,
        responses@[0] is DeviceError,
{
    answer(CameraCmdResponse::DeviceError(error))
}

/// Calls `Arc::clone`: another pointer to the same handler.
#[verifier::external_body]
fn share<H: ?Sized>(handler: &Arc<H>) -> (shared: Arc<H>)
    ensures
        shared == *handler,
{
    Arc::clone(handler)
}

impl<H: ?Sized> LinuxCameraWorker<H> {
    /// A worker at the start of its loop, with nothing done yet.
    pub fn new() -> (worker: Self)
        ensures
            worker == Self::initial(),
            worker.wf(),
    {
        LinuxCameraWorker {
            running: false,
            shutdown: false,
            camera: false,
            request_channel: false,
            output_handler: None,
            capture_handler: None,
            config_applied: false,
            awaiting: Action::ReceiveCommand,
        }
    }

    /// Tells whether an event can come of the action that the worker waits for.
    pub fn accepts(&self, event: &WorkerEvent<H>) -> (accepted: bool)
        ensures
            accepted == self.allows(*event),
    {
        match (self.awaiting, event) {
            (
                Action::ReceiveCommand,
                WorkerEvent::Command(CameraCmd::Configure(options)),
            ) => read_settings(options).is_some(),
            (Action::ReceiveCommand, WorkerEvent::Command(_) | WorkerEvent::NoCommand) => true,
            (
                Action::AwaitRequest,
                WorkerEvent::RequestCompleted | WorkerEvent::RequestTimedOut,
            ) => true,
            (
                Action::RequeueRequest,
                WorkerEvent::RequestQueued | WorkerEvent::QueueFailed,
            ) => true,
            (Action::ReadFormats, WorkerEvent::FormatsRead { limits, .. }) => match limits {
                Some(limits) => limits.are_usable(),
                None => true,
            },
            (
                Action::AcquireCamera,
                WorkerEvent::CameraAcquired | WorkerEvent::AcquireFailed(_),
            ) => true,
            (
                Action::ConfigureCamera,
                WorkerEvent::Configured | WorkerEvent::ConfigureFailed(_),
            ) => true,
            (Action::ReadStream, WorkerEvent::StreamRead { size, fourcc, .. }) => {
                pixel_format_of(*fourcc).is_none() || (size.width > 0 && size.height > 0)
            },
            (Action::OpenStream(_), WorkerEvent::StreamOpened { .. }) => true,
            (Action::CreateRequest(place), WorkerEvent::RequestCreated) => {
                place.index < place.count
            },
            (
                Action::StartCamera(_),
                WorkerEvent::CameraStarted | WorkerEvent::StartFailed(_),
            ) => true,
            (Action::SubmitRequest(place), WorkerEvent::RequestSubmitted) => {
                place.index < place.count
            },
            (
                Action::StopCamera,
                WorkerEvent::CameraStopped | WorkerEvent::StopFailed(_),
            ) => true,
            (Action::SetStream(settings), WorkerEvent::StreamSet(actual)) => match settings.size {
                Some(size) => size == *actual,
                None => true,
            },
            (Action::CheckAnswer, WorkerEvent::AnswerSent | WorkerEvent::AnswerLost) => true,
            _ => false,
        }
    }

    /// Ends a round.
    fn end_round(&mut self)
        ensures
            *final(self) == old(self).next_round(),
    {
        self.awaiting = if self.shutdown {
            Action::Exit
        } else {
            Action::ReceiveCommand
        };
    }

    /// Turns from the commands to the completed requests.
    fn end_commands(&mut self)
        ensures
            *final(self) == old(self).after_commands(),
    {
        if self.request_channel {
            self.awaiting = Action::AwaitRequest;
        } else {
            self.end_round();
        }
    }

    /// Turns to the request at a place, or else to the start of the camera.
    fn create_from(&mut self, place: Option<BufferPlace>, count: usize)
        ensures
            *final(self) == old(self).creating(place, count),
    {
        self.awaiting = match place {
            Some(place) => Action::CreateRequest(place),
            None => Action::StartCamera(count),
        };
    }

    /// Turns to the request at a place, or else ends the start.
    fn submit_from(&mut self, place: Option<BufferPlace>) -> (responses: Vec<CameraCmdResponse>)
        ensures
            *final(self) == old(self).submitting(place),
            response_views(responses@) == Self::submission_answers(place),
            forall|i: int| 0 <= i < responses@.len() ==> (#[trigger] responses@[i]).wf(),
    {
        match place {
            Some(place) => {
                self.awaiting = Action::SubmitRequest(place);
                Vec::new()
            },
            None => {
                self.running = true;
                self.awaiting = Action::ReceiveCommand;
                answer(CameraCmdResponse::Done)
            },
        }
    }

    /// Takes up a command.
    fn take_command(&mut self, command: CameraCmd<H>) -> (responses: Vec<CameraCmdResponse>)
        requires
            old(self).allows(WorkerEvent::Command(command)),
        ensures
            *final(self) == old(self).after_command(command),
            response_views(responses@) == old(self).answers(WorkerEvent::Command(command)),
            forall|i: int| 0 <= i < responses@.len() ==> (#[trigger] responses@[i]).wf(),
    {
        match command {
            CameraCmd::GetFormats => {
                self.awaiting = Action::ReadFormats;
                Vec::new()
            },
            CameraCmd::Start => {
                if self.running {
                    return refuse(DeviceError::StartFailed("Already running".to_owned()));
                }
                self.awaiting = Action::AcquireCamera;
                Vec::new()
            },
            CameraCmd::Stop => {
                if !self.camera {
                    return refuse(DeviceError::NotRunning("Not running".to_owned()));
                }
                self.camera = false;
                self.awaiting = Action::StopCamera;
                Vec::new()
            },
            CameraCmd::Shutdown => {
                self.shutdown = true;
                self.end_commands();
                Vec::new()
            },
            CameraCmd::SetOutputHandler(handler) => {
                self.output_handler = Some(handler);
                answer(CameraCmdResponse::Done)
            },
            CameraCmd::Configure(options) => {
                let settings = read_settings(&options).unwrap();
                self.awaiting = Action::SetStream(settings);
                Vec::new()
            },
        }
    }

    /// Takes note of what came of the action that the worker waited for, gives the
    /// answers to send, and moves on to the next action.
    pub fn handle(&mut self, event: WorkerEvent<H>) -> (responses: Vec<CameraCmdResponse>)
        requires
            old(self).allows(event),
        ensures
            *final(self) == old(self).after(event),
            response_views(responses@) == old(self).answers(event),
            forall|i: int| 0 <= i < responses@.len() ==> (#[trigger] responses@[i]).wf(),
            old(self).wf() ==> final(self).wf(),
    {
        match event {
            WorkerEvent::Command(command) => self.take_command(command),
            WorkerEvent::NoCommand => {
                self.end_commands();
                Vec::new()
            },
            WorkerEvent::RequestCompleted => {
                if self.camera {
                    self.awaiting = Action::RequeueRequest;
                } else {
                    self.end_round();
                }
                Vec::new()
            },
            WorkerEvent::RequestTimedOut | WorkerEvent::RequestQueued => {
                self.end_round();
                Vec::new()
            },
            WorkerEvent::QueueFailed => {
                self.awaiting = Action::Exit;
                Vec::new()
            },
            WorkerEvent::FormatsRead { formats, limits } => {
                self.awaiting = Action::ReceiveCommand;
                match frame_intervals(&limits) {
                    Ok(intervals) => {
                        let entries = list_formats(&formats);
                        answer(CameraCmdResponse::Formats(FormatList { entries, intervals }))
                    },
                    Err(error) => refuse(error),
                }
            },
            WorkerEvent::CameraAcquired => {
                self.camera = true;
                self.awaiting = if self.config_applied {
                    Action::ReadStream
                } else {
                    Action::ConfigureCamera
                };
                Vec::new()
            },
            WorkerEvent::AcquireFailed(report) => {
                self.awaiting = Action::ReceiveCommand;
                refuse(
                    DeviceError::StartFailed(explain("Acqurie failed. error: ", report.as_str())),
                )
            },
            WorkerEvent::Configured => {
                self.config_applied = true;
                self.awaiting = Action::ReadStream;
                Vec::new()
            },
            WorkerEvent::ConfigureFailed(report) => {
                self.config_applied = true;
                self.awaiting = Action::ReceiveCommand;
                refuse(
                    DeviceError::StartFailed(
                        explain("Configuration failed. error: ", report.as_str()),
                    ),
                )
            },
            WorkerEvent::StreamRead { size, fourcc, name } => match pixel_format_of(fourcc) {
                Some(format) => {
                    self.capture_handler = match &self.output_handler {
                        Some(handler) => Some(share(handler)),
                        None => None,
                    };
                    self.awaiting = Action::OpenStream(
                        FrameDescription { format, width: size.width, height: size.height },
                    );
                    Vec::new()
                },
                None => {
                    self.awaiting = Action::ReceiveCommand;
                    refuse(
                        DeviceError::StartFailed(
                            explain("Unsupported pixel format. ", name.as_str()),
                        ),
                    )
                },
            },
            WorkerEvent::StreamOpened { buffers } => {
                self.request_channel = true;
                self.create_from(BufferPlace::first_of(buffers), buffers);
                Vec::new()
            },
            WorkerEvent::RequestCreated => {
                if let Action::CreateRequest(place) = self.awaiting {
                    self.create_from(place.following(), place.count);
                }
                Vec::new()
            },
            WorkerEvent::CameraStarted => {
                let count = match self.awaiting {
                    Action::StartCamera(count) => count,
                    _ => 0,
                };
                self.submit_from(BufferPlace::first_of(count))
            },
            WorkerEvent::RequestSubmitted => {
                let place = match self.awaiting {
                    Action::SubmitRequest(place) => place.following(),
                    _ => None,
                };
                self.submit_from(place)
            },
            WorkerEvent::StartFailed(report) => {
                self.awaiting = Action::ReceiveCommand;
                refuse(DeviceError::StartFailed(report))
            },
            WorkerEvent::CameraStopped => {
                self.running = false;
                self.awaiting = Action::ReceiveCommand;
                answer(CameraCmdResponse::Done)
            },
            WorkerEvent::StopFailed(report) => {
                self.running = false;
                self.awaiting = Action::ReceiveCommand;
                let mut responses = refuse(DeviceError::StopFailed(report));
                proof {
                    assert(response_views(responses@)[0] == responses@[0]@);
                }
                responses.push(CameraCmdResponse::Done);
                responses
            },
            WorkerEvent::StreamSet(_) => {
                self.awaiting = Action::CheckAnswer;
                answer(CameraCmdResponse::Done)
            },
            WorkerEvent::AnswerSent => {
                self.awaiting = Action::ReceiveCommand;
                Vec::new()
            },
            WorkerEvent::AnswerLost => {
                self.end_commands();
                Vec::new()
            },
        }
    }
}

} // verus!
