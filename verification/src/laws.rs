//! What holds of a worker over any course of events.
use std::sync::Arc;

use vstd::prelude::*;
use x_variant::Variant;

use crate::command::{CameraCmd, CameraCmdResponse, ResponseView};
use crate::device::Exchange;
use crate::error::DeviceErrorView;
use crate::formats::{intervals_of, CameraFormat, FrameDurationLimits, Size};
use crate::fourcc::FOURCC_MJPEG;
use crate::settings::optional_settings;
use crate::variant::dict_numbers;
use crate::video::{deliverable, requested_fourcc};
use crate::worker::{start_failed, Action, BufferPlace, LinuxCameraWorker, WorkerEvent};

verus! {

/// A worker after a row of events.
pub open spec fn run<H: ?Sized>(
    worker: LinuxCameraWorker<H>,
    events: Seq<WorkerEvent<H>>,
) -> LinuxCameraWorker<H>
    decreases events.len(),
{
    if events.len() == 0 {
        worker
    } else {
        run(worker, events.drop_last()).after(events.last())
    }
}

/// Whether each of a row of events can come of the action that the worker waits
/// for when it happens.
pub open spec fn possible<H: ?Sized>(
    worker: LinuxCameraWorker<H>,
    events: Seq<WorkerEvent<H>>,
) -> bool
    decreases events.len(),
{
    events.len() == 0 || {
        &&& possible(worker, events.drop_last())
        &&& run(worker, events.drop_last()).allows(events.last())
    }
}

/// All answers of a worker to a row of events.
pub open spec fn all_answers<H: ?Sized>(
    worker: LinuxCameraWorker<H>,
    events: Seq<WorkerEvent<H>>,
) -> Seq<ResponseView>
    decreases events.len(),
{
    if events.len() == 0 {
        Seq::empty()
    } else {
        all_answers(worker, events.drop_last()) + run(worker, events.drop_last()).answers(
            events.last(),
        )
    }
}

/// Whether an event is a command that asks for an answer.
pub open spec fn asks<H: ?Sized>(event: WorkerEvent<H>) -> bool {
    event matches WorkerEvent::Command(command) && !(command is Shutdown)
}

/// How many events of a row are commands that ask for an answer.
pub open spec fn questions<H: ?Sized>(events: Seq<WorkerEvent<H>>) -> nat {
    events.filter(|event: WorkerEvent<H>| asks(event)).len()
}

/// How many events of a row are failures to stop the camera.
pub open spec fn failed_stops<H: ?Sized>(events: Seq<WorkerEvent<H>>) -> nat {
    events.filter(|event: WorkerEvent<H>| event is StopFailed).len()
}

/// The handler that was set last in a row of events, or else the one from before.
pub open spec fn last_handler<H: ?Sized>(
    before: Option<Arc<H>>,
    events: Seq<WorkerEvent<H>>,
) -> Option<Arc<H>>
    decreases events.len(),
{
    if events.len() == 0 {
        before
    } else {
        match events.last() {
            WorkerEvent::Command(CameraCmd::SetOutputHandler(handler)) => Some(handler),
            _ => last_handler(before, events.drop_last()),
        }
    }
}

/// Whether an event tells of a stream that can be opened, with which a start settles
/// where its frames go.
pub open spec fn settles_handler<H: ?Sized>(event: WorkerEvent<H>) -> bool {
    event matches WorkerEvent::StreamRead { size, fourcc, name } && deliverable(fourcc) is Some
}

/// The handler that was the last one set when a start last settled where its frames go
/// in a row of events, or else the capture handler from before.
pub open spec fn handler_at_last_start<H: ?Sized>(
    capturing: Option<Arc<H>>,
    before: Option<Arc<H>>,
    events: Seq<WorkerEvent<H>>,
) -> Option<Arc<H>>
    decreases events.len(),
{
    if events.len() == 0 {
        capturing
    } else if settles_handler(events.last()) {
        last_handler(before, events.drop_last())
    } else {
        handler_at_last_start(capturing, before, events.drop_last())
    }
}

/// Whether an event tells of the end of a stop.
pub open spec fn ends_stop<H: ?Sized>(event: WorkerEvent<H>) -> bool {
    event is CameraStopped || event is StopFailed
}

/// Whether a row of events, up to an end in it, closes with an opened stream of a
/// number of buffers and then a number of created requests.
pub open spec fn just_created<H: ?Sized>(
    events: Seq<WorkerEvent<H>>,
    end: int,
    requests: int,
    buffers: usize,
) -> bool {
    &&& 0 <= requests < end <= events.len()
    &&& events[end - 1 - requests] == WorkerEvent::<H>::StreamOpened { buffers }
    &&& forall|i: int| end - requests <= i < end ==> (#[trigger] events[i]) is RequestCreated
}

/// Whether a row of events closes with a start of the camera, for which a request was
/// created for each of a number of buffers, and then a number of requests queued for
/// the first time.
pub open spec fn just_submitted<H: ?Sized>(
    events: Seq<WorkerEvent<H>>,
    requests: int,
    buffers: usize,
) -> bool {
    let start = events.len() - 1 - requests;
    &&& 0 <= requests < events.len()
    &&& events[start] is CameraStarted
    &&& forall|i: int| start < i < events.len() ==> (#[trigger] events[i]) is RequestSubmitted
    &&& just_created(events, start, buffers as int, buffers)
}

/// Whether an event tells of an attempt to put the configuration on the camera.
pub open spec fn configures<H: ?Sized>(event: WorkerEvent<H>) -> bool {
    event is Configured || event is ConfigureFailed
}

/// A well-formed worker stays well-formed whatever happens: capture runs only on a
/// camera that is acquired and configured, requests are queued again only on such a
/// camera, and no command is taken up once a shutdown was asked for.
pub proof fn law_wf_is_kept<H: ?Sized>(worker: LinuxCameraWorker<H>, events: Seq<WorkerEvent<H>>)
    requires
        worker.wf(),
        possible(worker, events),
    ensures
        run(worker, events).wf(),
    decreases events.len(),
{
    if events.len() > 0 {
        law_wf_is_kept(worker, events.drop_last());
    }
}

/// A worker comes to no state from its beginning that is not well-formed.
pub proof fn law_every_state_is_wf<H: ?Sized>(events: Seq<WorkerEvent<H>>)
    requires
        possible(LinuxCameraWorker::<H>::initial(), events),
    ensures
        run(LinuxCameraWorker::<H>::initial(), events).wf(),
{
    law_wf_is_kept(LinuxCameraWorker::<H>::initial(), events);
}

/// Every command but a shutdown is answered once, by the time that the worker looks
/// for another. A stop that fails is answered twice: with the error, and as done.
pub proof fn law_each_command_is_answered<H: ?Sized>(
    worker: LinuxCameraWorker<H>,
    events: Seq<WorkerEvent<H>>,
)
    requires
        !worker.busy(),
        possible(worker, events),
    ensures
        all_answers(worker, events).len() == questions(events) + failed_stops(events) - (if run(
            worker,
            events,
        ).busy() {
            1int
        } else {
            0int
        }),
    decreases events.len(),
{
    reveal(Seq::filter);
    if events.len() > 0 {
        law_each_command_is_answered(worker, events.drop_last());
    }
}

/// A shutdown is final. After it the worker takes at most the outcome of waiting for
/// a request and of queueing it again; it takes no command, gives no answer and
/// changes nothing but what it waits for. Without a request channel it leaves at
/// once, and it does leave.
pub proof fn law_shutdown_is_final<H: ?Sized>(
    worker: LinuxCameraWorker<H>,
    events: Seq<WorkerEvent<H>>,
)
    requires
        worker.wf(),
        worker.allows(WorkerEvent::Command(CameraCmd::Shutdown)),
        possible(worker.after(WorkerEvent::Command(CameraCmd::Shutdown)), events),
    ensures
        ({
            let stopped = worker.after(WorkerEvent::Command(CameraCmd::Shutdown));
            let end = run(stopped, events);
            &&& events.len() <= 2
            &&& !worker.request_channel ==> events.len() == 0 && end.awaiting is Exit
            &&& events.len() == 1 ==> end.awaiting is RequeueRequest || end.awaiting is Exit
            &&& events.len() == 2 ==> end.awaiting is Exit
            &&& forall|i: int| 0 <= i < events.len() ==> !((#[trigger] events[i]) is Command)
            &&& all_answers(stopped, events).len() == 0
            &&& end == stopped.waiting_for(end.awaiting)
        }),
    decreases events.len(),
{
    if events.len() > 0 {
        let before = events.drop_last();
        law_shutdown_is_final(worker, before);
        assert forall|i: int| 0 <= i < events.len() implies !((#[trigger] events[i]) is Command) by {
            if i < before.len() {
                assert(before[i] == events[i]);
            }
        }
    }
}

/// Whether an event makes the worker leave its loop, at once or after this round.
pub open spec fn ends_loop<H: ?Sized>(event: WorkerEvent<H>) -> bool {
    ||| event is QueueFailed
    ||| event matches WorkerEvent::Command(command) && command is Shutdown
}

/// A worker leaves its loop only on a shutdown, or when a request cannot be queued
/// again.
pub proof fn law_worker_leaves_only_when_told<H: ?Sized>(events: Seq<WorkerEvent<H>>)
    requires
        possible(LinuxCameraWorker::<H>::initial(), events),
        forall|i: int| 0 <= i < events.len() ==> !ends_loop(#[trigger] events[i]),
    ensures
        !(run(LinuxCameraWorker::<H>::initial(), events).awaiting is Exit),
        !run(LinuxCameraWorker::<H>::initial(), events).shutdown,
    decreases events.len(),
{
    if events.len() > 0 {
        let before = events.drop_last();
        assert forall|i: int| 0 <= i < before.len() implies !ends_loop(#[trigger] before[i]) by {
            assert(before[i] == events[i]);
        }
        law_worker_leaves_only_when_told(before);
        assert(!ends_loop(events[events.len() - 1]));
    }
}

/// Without a shutdown and without a failure to queue, a worker that waits for a request
/// looks for commands again after at most the outcome of the wait and of queueing the
/// request again. When no request is completed in time it does so at once, with nothing
/// else changed, whether or not it holds the camera.
pub proof fn law_worker_looks_for_commands_again<H: ?Sized>(
    worker: LinuxCameraWorker<H>,
    first: WorkerEvent<H>,
    second: WorkerEvent<H>,
)
    requires
        !worker.shutdown,
        worker.awaiting is AwaitRequest,
        possible(worker, seq![first, second]),
        !(second is QueueFailed),
    ensures
        run(worker, seq![first]).awaiting is ReceiveCommand || run(
            worker,
            seq![first, second],
        ).awaiting is ReceiveCommand,
        first is RequestTimedOut ==> run(worker, seq![first]) == (LinuxCameraWorker {
            awaiting: Action::ReceiveCommand,
            ..worker
        }),
        !worker.camera ==> run(worker, seq![first]) == (LinuxCameraWorker {
            awaiting: Action::ReceiveCommand,
            ..worker
        }),
        all_answers(worker, seq![first]) == Seq::<ResponseView>::empty(),
{
    lemma_one_more_event(worker, Seq::empty(), first);
    lemma_one_more_event(worker, seq![first], second);
    assert(Seq::empty().push(first) =~= seq![first]);
    assert(seq![first].push(second) =~= seq![first, second]);
}

/// Each action is waited for on account of the event just before it. Above all, a stream
/// is opened with a layout that has the size and the format of the stream as it was
/// read, and settings are put on it as they were asked for.
pub proof fn law_each_action_has_its_cause<H: ?Sized>(
    worker: LinuxCameraWorker<H>,
    events: Seq<WorkerEvent<H>>,
)
    requires
        events.len() > 0,
        possible(worker, events),
    ensures
        match run(worker, events).awaiting {
            Action::OpenStream(desc) => {
                &&& events.last() matches WorkerEvent::StreamRead { size, fourcc, name }
                &&& desc.width == size.width
                &&& desc.height == size.height
                &&& deliverable(fourcc) == Some(desc.format)
            },
            Action::SetStream(settings) => {
                &&& events.last() matches WorkerEvent::Command(CameraCmd::Configure(options))
                &&& requested_fourcc(dict_numbers(options).get("format"@)) == Some(settings.fourcc)
                &&& settings.size matches Some(size) ==> dict_numbers(options).get("width"@)
                    == Some(size.width) && dict_numbers(options).get("height"@) == Some(size.height)
                &&& settings.size is None ==> dict_numbers(options).get("width"@) is None
                    || dict_numbers(options).get("height"@) is None
            },
            Action::ReadFormats => events.last() matches WorkerEvent::Command(command)
                && command is GetFormats,
            Action::AcquireCamera => events.last() matches WorkerEvent::Command(command)
                && command is Start,
            Action::StopCamera => events.last() matches WorkerEvent::Command(command)
                && command is Stop,
            Action::ConfigureCamera => events.last() is CameraAcquired,
            Action::ReadStream => events.last() is CameraAcquired || events.last() is Configured,
            Action::RequeueRequest => events.last() is RequestCompleted,
            Action::CheckAnswer => events.last() is StreamSet,
            _ => true,
        },
{
}

/// A start while capture runs is refused and changes nothing.
pub proof fn law_start_is_refused_while_running<H: ?Sized>(worker: LinuxCameraWorker<H>)
    requires
        worker.running,
        worker.awaiting is ReceiveCommand,
    ensures
        worker.allows(WorkerEvent::Command(CameraCmd::Start)),
        worker.after(WorkerEvent::Command(CameraCmd::Start)) == worker,
        worker.answers(WorkerEvent::Command(CameraCmd::Start)) == seq![
            start_failed("Already running"@),
        ],
{
}

/// A stop without an acquired camera is refused and changes nothing.
pub proof fn law_stop_is_refused_without_camera<H: ?Sized>(worker: LinuxCameraWorker<H>)
    requires
        !worker.camera,
        worker.awaiting is ReceiveCommand,
    ensures
        worker.allows(WorkerEvent::Command(CameraCmd::Stop)),
        worker.after(WorkerEvent::Command(CameraCmd::Stop)) == worker,
        worker.answers(WorkerEvent::Command(CameraCmd::Stop)) == seq![
            ResponseView::DeviceError(DeviceErrorView::NotRunning("Not running"@)),
        ],
{
}

/// Whether an event is a command to stop.
pub open spec fn is_stop<H: ?Sized>(event: WorkerEvent<H>) -> bool {
    event matches WorkerEvent::Command(command) && command is Stop
}

/// Whether the camera was acquired at a place in a row of events and no command to
/// stop came since.
pub open spec fn acquired_for_good<H: ?Sized>(events: Seq<WorkerEvent<H>>, place: int) -> bool {
    &&& 0 <= place < events.len()
    &&& events[place] is CameraAcquired
    &&& forall|i: int| place < i < events.len() ==> !is_stop(#[trigger] events[i])
}

/// A worker holds the camera exactly when it was acquired and no command to stop came
/// since.
pub proof fn law_camera_is_held_from_start_to_stop<H: ?Sized>(events: Seq<WorkerEvent<H>>)
    requires
        possible(LinuxCameraWorker::<H>::initial(), events),
    ensures
        run(LinuxCameraWorker::<H>::initial(), events).camera <==> exists|place: int|
            acquired_for_good(events, place),
    decreases events.len(),
{
    if events.len() > 0 {
        let before = events.drop_last();
        let last = events.len() - 1;
        law_camera_is_held_from_start_to_stop(before);
        assert forall|i: int| 0 <= i < last implies #[trigger] events[i] == before[i] by {}
        if events[last] is CameraAcquired {
            assert(acquired_for_good(events, last));
        } else if is_stop(events[last]) {
            assert forall|place: int| !acquired_for_good(events, place) by {}
        } else {
            assert forall|place: int|
                acquired_for_good(events, place) == acquired_for_good(before, place) by {
                if acquired_for_good(events, place) {
                    assert forall|i: int| place < i < before.len() implies !is_stop(
                        #[trigger] before[i],
                    ) by {
                        assert(!is_stop(events[i]));
                    }
                }
            }
        }
    }
}

/// A row of events taken in two parts leads where the second part leads from where the
/// first one led.
proof fn lemma_run_in_parts<H: ?Sized>(
    worker: LinuxCameraWorker<H>,
    first: Seq<WorkerEvent<H>>,
    second: Seq<WorkerEvent<H>>,
)
    ensures
        run(worker, first + second) == run(run(worker, first), second),
        possible(worker, first + second) == (possible(worker, first) && possible(
            run(worker, first),
            second,
        )),
        all_answers(worker, first + second) == all_answers(worker, first) + all_answers(
            run(worker, first),
            second,
        ),
    decreases second.len(),
{
    if second.len() == 0 {
        assert(first + second =~= first);
    } else {
        assert((first + second).drop_last() =~= first + second.drop_last());
        lemma_run_in_parts(worker, first, second.drop_last());
    }
}

/// One more event leads one step on.
proof fn lemma_one_more_event<H: ?Sized>(
    worker: LinuxCameraWorker<H>,
    events: Seq<WorkerEvent<H>>,
    event: WorkerEvent<H>,
)
    ensures
        run(worker, events.push(event)) == run(worker, events).after(event),
        possible(worker, events.push(event)) == (possible(worker, events) && run(
            worker,
            events,
        ).allows(event)),
        all_answers(worker, events.push(event)) == all_answers(worker, events) + run(
            worker,
            events,
        ).answers(event),
{
    assert(events.push(event).drop_last() =~= events);
}

/// A number of requests created in a row.
pub open spec fn creations<H: ?Sized>(requests: int) -> Seq<WorkerEvent<H>> {
    Seq::new(requests as nat, |i: int| WorkerEvent::RequestCreated)
}

/// A number of requests queued for the first time in a row.
pub open spec fn submissions<H: ?Sized>(requests: int) -> Seq<WorkerEvent<H>> {
    Seq::new(requests as nat, |i: int| WorkerEvent::RequestSubmitted)
}

/// Requests are created in the order of the buffers, and then the camera is started.
proof fn lemma_creations<H: ?Sized>(worker: LinuxCameraWorker<H>, requests: int, count: usize)
    requires
        0 <= requests <= count,
        worker == worker.creating(BufferPlace::first(count), count),
    ensures
        possible(worker, creations(requests)),
        run(worker, creations(requests)) == worker.waiting_for(
            if requests < count {
                Action::CreateRequest(BufferPlace { index: requests as usize, count })
            } else {
                Action::StartCamera(count)
            },
        ),
        all_answers(worker, creations(requests)) == Seq::<ResponseView>::empty(),
    decreases requests,
{
    if requests > 0 {
        assert(creations::<H>(requests).drop_last() =~= creations(requests - 1));
        lemma_creations(worker, requests - 1, count);
    }
}

/// Requests are queued in the order of the buffers, and then capture runs.
proof fn lemma_submissions<H: ?Sized>(worker: LinuxCameraWorker<H>, requests: int, count: usize)
    requires
        0 <= requests <= count,
        count > 0,
        worker == worker.submitting(BufferPlace::first(count)),
    ensures
        possible(worker, submissions(requests)),
        run(worker, submissions(requests)) == if requests < count {
            worker.waiting_for(
                Action::SubmitRequest(BufferPlace { index: requests as usize, count }),
            )
        } else {
            worker.submitting(None)
        },
        all_answers(worker, submissions(requests)) == if requests < count {
            Seq::empty()
        } else {
            seq![ResponseView::Done]
        },
    decreases requests,
{
    if requests > 0 {
        assert(submissions::<H>(requests).drop_last() =~= submissions(requests - 1));
        lemma_submissions(worker, requests - 1, count);
    }
}

/// The events of a start that goes well, up to the opened stream.
pub open spec fn opening_events<H: ?Sized>(
    config_applied: bool,
    size: Size,
    fourcc: u32,
    name: String,
    buffers: usize,
) -> Seq<WorkerEvent<H>> {
    let acquired = seq![WorkerEvent::Command(CameraCmd::Start), WorkerEvent::CameraAcquired];
    let configured = if config_applied {
        acquired
    } else {
        acquired.push(WorkerEvent::Configured)
    };
    configured.push(WorkerEvent::StreamRead { size, fourcc, name }).push(
        WorkerEvent::StreamOpened { buffers },
    )
}

/// The events of a start that goes well: the stream is opened, a request is created
/// for each of its buffers, the camera is started, and the requests are queued.
pub open spec fn start_events<H: ?Sized>(
    config_applied: bool,
    size: Size,
    fourcc: u32,
    name: String,
    buffers: usize,
) -> Seq<WorkerEvent<H>> {
    opening_events(config_applied, size, fourcc, name, buffers) + creations(buffers as int) + seq![
        WorkerEvent::CameraStarted,
    ] + submissions(buffers as int)
}

/// Where the camera goes along, a start command opens the stream.
proof fn lemma_opening<H: ?Sized>(
    worker: LinuxCameraWorker<H>,
    size: Size,
    fourcc: u32,
    name: String,
    buffers: usize,
)
    requires
        !worker.running,
        worker.awaiting is ReceiveCommand,
        deliverable(fourcc) is Some,
        size.width > 0 && size.height > 0,
    ensures
        ({
            let events = opening_events(worker.config_applied, size, fourcc, name, buffers);
            &&& possible(worker, events)
            &&& run(worker, events) == (LinuxCameraWorker {
                camera: true,
                request_channel: true,
                config_applied: true,
                capture_handler: worker.output_handler,
                ..worker
            }).creating(BufferPlace::first(buffers), buffers)
            &&& all_answers(worker, events) == Seq::<ResponseView>::empty()
        }),
{
    let begun: Seq<WorkerEvent<H>> = seq![WorkerEvent::Command(CameraCmd::Start)];
    let acquired = begun.push(WorkerEvent::CameraAcquired);
    let read = WorkerEvent::<H>::StreamRead { size, fourcc, name };
    assert(acquired =~= seq![
        WorkerEvent::Command(CameraCmd::Start),
        WorkerEvent::CameraAcquired,
    ]);
    lemma_one_more_event(worker, Seq::empty(), WorkerEvent::Command(CameraCmd::Start));
    assert(begun =~= Seq::empty().push(WorkerEvent::Command(CameraCmd::Start)));
    lemma_one_more_event(worker, begun, WorkerEvent::CameraAcquired);
    lemma_one_more_event(worker, acquired, WorkerEvent::Configured);
    let configured = if worker.config_applied {
        acquired
    } else {
        acquired.push(WorkerEvent::Configured)
    };
    lemma_one_more_event(worker, configured, read);
    lemma_one_more_event(worker, configured.push(read), WorkerEvent::StreamOpened { buffers });
}

/// Where the camera goes along, a start command makes capture run, on a stream that
/// was read in a deliverable format, and is answered as done. The configuration is
/// put on the camera only the first time, each buffer has one request, and frames go
/// to the output handler of the time.
pub proof fn law_start_runs_capture<H: ?Sized>(
    worker: LinuxCameraWorker<H>,
    size: Size,
    fourcc: u32,
    name: String,
    buffers: usize,
)
    requires
        !worker.running,
        worker.awaiting is ReceiveCommand,
        deliverable(fourcc) is Some,
        size.width > 0 && size.height > 0,
    ensures
        ({
            let events = start_events(worker.config_applied, size, fourcc, name, buffers);
            &&& possible(worker, events)
            &&& run(worker, events) == (LinuxCameraWorker {
                running: true,
                camera: true,
                request_channel: true,
                config_applied: true,
                capture_handler: worker.output_handler,
                ..worker
            })
            &&& all_answers(worker, events) == seq![ResponseView::Done]
        }),
{
    let opening = opening_events(worker.config_applied, size, fourcc, name, buffers);
    lemma_opening(worker, size, fourcc, name, buffers);
    let opened = run(worker, opening);
    let created = opening + creations(buffers as int);
    lemma_run_in_parts(worker, opening, creations(buffers as int));
    lemma_creations(opened, buffers as int, buffers);
    let ready = opened.waiting_for(Action::StartCamera(buffers));
    assert(run(worker, created) == ready);
    let started = created + seq![WorkerEvent::CameraStarted];
    assert(started =~= created.push(WorkerEvent::CameraStarted));
    lemma_one_more_event(worker, created, WorkerEvent::CameraStarted);
    lemma_run_in_parts(worker, started, submissions(buffers as int));
    if buffers > 0 {
        lemma_submissions(ready.submitting(BufferPlace::first(buffers)), buffers as int, buffers);
    } else {
        assert(submissions::<H>(0) =~= Seq::empty());
    }
}

/// The camera is started when a request was created for each buffer of the stream that
/// was just opened, and not before. Requests are queued for the first time only when
/// the camera was started, one for each buffer, in order.
pub proof fn law_requests_follow_the_buffers<H: ?Sized>(
    worker: LinuxCameraWorker<H>,
    events: Seq<WorkerEvent<H>>,
)
    requires
        !worker.busy(),
        possible(worker, events),
    ensures
        match run(worker, events).awaiting {
            Action::CreateRequest(place) => place.wf() && just_created(
                events,
                events.len() as int,
                place.index as int,
                place.count,
            ),
            Action::StartCamera(count) => just_created(
                events,
                events.len() as int,
                count as int,
                count,
            ),
            Action::SubmitRequest(place) => place.wf() && just_submitted(
                events,
                place.index as int,
                place.count,
            ),
            _ => true,
        },
    decreases events.len(),
{
    if events.len() > 0 {
        let before = events.drop_last();
        law_requests_follow_the_buffers(worker, before);
        assert forall|i: int| 0 <= i < before.len() implies #[trigger] events[i] == before[i] by {}
        match run(worker, before).awaiting {
            Action::CreateRequest(place) => {
                assert(just_created(
                    events,
                    events.len() as int,
                    place.index + 1,
                    place.count,
                ));
            },
            Action::StartCamera(count) => {
                assert(just_created(events, before.len() as int, count as int, count));
            },
            Action::SubmitRequest(place) => {
                let start = before.len() - 1 - place.index;
                assert(just_created(events, start, place.count as int, place.count));
            },
            _ => {},
        }
    }
}

/// Where the camera cannot be started, nothing happened since the stream was opened but
/// that its requests were created, and the worker looks for commands again: none of
/// the requests is queued.
pub proof fn law_failed_start_queues_nothing<H: ?Sized>(
    worker: LinuxCameraWorker<H>,
    events: Seq<WorkerEvent<H>>,
    report: String,
)
    requires
        !worker.busy(),
        possible(worker, events),
        run(worker, events).allows(WorkerEvent::StartFailed(report)),
    ensures
        run(worker, events).awaiting matches Action::StartCamera(count) && just_created(
            events,
            events.len() as int,
            count as int,
            count,
        ),
        run(worker, events).after(WorkerEvent::StartFailed(report)).awaiting is ReceiveCommand,
{
    law_requests_follow_the_buffers(worker, events);
}

/// Where the camera stops, a stop command undoes a start: capture no longer runs, the
/// camera is let go of, and everything else stays as it is.
pub proof fn law_stop_undoes_start<H: ?Sized>(worker: LinuxCameraWorker<H>)
    requires
        worker.camera,
        worker.awaiting is ReceiveCommand,
    ensures
        ({
            let events = seq![WorkerEvent::Command(CameraCmd::Stop), WorkerEvent::CameraStopped];
            &&& possible(worker, events)
            &&& run(worker, events) == (LinuxCameraWorker {
                running: false,
                camera: false,
                ..worker
            })
            &&& all_answers(worker, events) == seq![ResponseView::Done]
        }),
{
    reveal_with_fuel(run, 3);
    reveal_with_fuel(possible, 3);
    reveal_with_fuel(all_answers, 3);
    let events: Seq<WorkerEvent<H>> = seq![
        WorkerEvent::Command(CameraCmd::Stop),
        WorkerEvent::CameraStopped,
    ];
    assert(events.drop_last().drop_last() =~= Seq::<WorkerEvent<H>>::empty());
}

/// While the camera is held, a request that it completes is queued again, and the
/// worker is back where it looks for commands, with nothing changed.
pub proof fn law_completed_requests_are_queued_again<H: ?Sized>(worker: LinuxCameraWorker<H>)
    requires
        worker.wf(),
        worker.camera,
        worker.request_channel,
        worker.awaiting is ReceiveCommand,
    ensures
        ({
            let events = seq![
                WorkerEvent::NoCommand,
                WorkerEvent::RequestCompleted,
                WorkerEvent::RequestQueued,
            ];
            &&& possible(worker, events)
            &&& run(worker, events.take(2)).awaiting is RequeueRequest
            &&& run(worker, events) == worker
            &&& all_answers(worker, events) == Seq::<ResponseView>::empty()
        }),
{
    reveal_with_fuel(run, 4);
    reveal_with_fuel(possible, 4);
    reveal_with_fuel(all_answers, 4);
    let events: Seq<WorkerEvent<H>> = seq![
        WorkerEvent::NoCommand,
        WorkerEvent::RequestCompleted,
        WorkerEvent::RequestQueued,
    ];
    assert(events.take(2) =~= events.drop_last());
    assert(events.drop_last().drop_last() =~= seq![WorkerEvent::NoCommand]);
}

/// A request that comes back when the camera is let go of is not queued again, and
/// nothing changes.
pub proof fn law_late_requests_are_dropped<H: ?Sized>(worker: LinuxCameraWorker<H>)
    requires
        worker.wf(),
        worker.request_channel,
        !worker.camera,
        worker.awaiting is ReceiveCommand,
    ensures
        ({
            let events = seq![WorkerEvent::NoCommand, WorkerEvent::RequestCompleted];
            &&& possible(worker, events)
            &&& run(worker, events) == worker
            &&& all_answers(worker, events) == Seq::<ResponseView>::empty()
        }),
{
    reveal_with_fuel(run, 3);
    reveal_with_fuel(possible, 3);
    reveal_with_fuel(all_answers, 3);
    let events: Seq<WorkerEvent<H>> = seq![
        WorkerEvent::NoCommand,
        WorkerEvent::RequestCompleted,
    ];
    assert(events.drop_last() =~= seq![WorkerEvent::NoCommand]);
}

/// To configure the stream puts on it what the options ask for, is answered as done
/// and changes nothing of the worker, whether or not capture runs. It does not put
/// the configuration on the camera.
pub proof fn law_configure_only_sets_the_stream<H: ?Sized>(
    worker: LinuxCameraWorker<H>,
    options: Variant,
    actual: Size,
)
    requires
        worker.awaiting is ReceiveCommand,
        optional_settings(dict_numbers(options)) is Some,
        optional_settings(dict_numbers(options))->0.size matches Some(size) ==> size == actual,
    ensures
        ({
            let events = seq![
                WorkerEvent::Command(CameraCmd::Configure(options)),
                WorkerEvent::StreamSet(actual),
                WorkerEvent::AnswerSent,
            ];
            &&& possible(worker, events)
            &&& run(worker, events.take(1)).awaiting == Action::SetStream(
                optional_settings(dict_numbers(options))->0,
            )
            &&& run(worker, events) == worker
            &&& all_answers(worker, events) == seq![ResponseView::Done]
        }),
{
    reveal_with_fuel(run, 4);
    reveal_with_fuel(possible, 4);
    reveal_with_fuel(all_answers, 4);
    let events: Seq<WorkerEvent<H>> = seq![
        WorkerEvent::Command(CameraCmd::Configure(options)),
        WorkerEvent::StreamSet(actual),
        WorkerEvent::AnswerSent,
    ];
    assert(events.take(1) =~= events.drop_last().drop_last());
}

/// To list the formats is answered once and changes nothing, whether or not capture
/// runs.
pub proof fn law_listing_changes_nothing<H: ?Sized>(
    worker: LinuxCameraWorker<H>,
    formats: Vec<CameraFormat>,
    limits: Option<FrameDurationLimits>,
)
    requires
        worker.awaiting is ReceiveCommand,
        limits matches Some(limits) ==> limits.wf(),
    ensures
        ({
            let events = seq![
                WorkerEvent::Command(CameraCmd::GetFormats),
                WorkerEvent::FormatsRead { formats, limits },
            ];
            &&& possible(worker, events)
            &&& run(worker, events) == worker
            &&& all_answers(worker, events).len() == 1
            &&& all_answers(worker, events)[0] is Formats <==> intervals_of(limits) is Ok
        }),
{
    reveal_with_fuel(run, 3);
    reveal_with_fuel(possible, 3);
    reveal_with_fuel(all_answers, 3);
    let events: Seq<WorkerEvent<H>> = seq![
        WorkerEvent::Command(CameraCmd::GetFormats),
        WorkerEvent::FormatsRead { formats, limits },
    ];
    assert(events.drop_last() =~= seq![WorkerEvent::Command(CameraCmd::GetFormats)]);
}

/// A start that comes to an end before the camera is started is answered with a start
/// error, and the worker looks for commands again. Capture does not run, and a camera
/// that was acquired on the way stays acquired.
pub proof fn law_failed_start_leaves_capture_off<H: ?Sized>(
    worker: LinuxCameraWorker<H>,
    event: WorkerEvent<H>,
)
    requires
        worker.wf(),
        worker.starting(),
        worker.allows(event),
        !worker.after(event).starting(),
        !(event is CameraStarted || event is RequestSubmitted),
    ensures
        !worker.after(event).running,
        worker.after(event).camera == worker.camera,
        worker.after(event).awaiting is ReceiveCommand,
        worker.answers(event).len() == 1,
        worker.answers(event)[0] matches ResponseView::DeviceError(error)
            && error is StartFailed,
{
}

/// The configuration is put on the camera at most once in the life of a worker,
/// whether or not the camera takes it.
pub proof fn law_configuration_is_applied_once<H: ?Sized>(
    worker: LinuxCameraWorker<H>,
    events: Seq<WorkerEvent<H>>,
    first: int,
    second: int,
)
    requires
        worker.wf(),
        possible(worker, events),
        0 <= first < events.len(),
        0 <= second < events.len(),
        configures(events[first]),
        configures(events[second]),
    ensures
        first == second,
    decreases events.len(),
{
    let before = events.drop_last();
    if first < before.len() && second < before.len() {
        law_configuration_is_applied_once(worker, before, first, second);
    } else if first < before.len() {
        lemma_configuration_stays_applied(worker, before, first);
        law_wf_is_kept(worker, before);
    } else if second < before.len() {
        lemma_configuration_stays_applied(worker, before, second);
        law_wf_is_kept(worker, before);
    }
}

/// After an attempt to configure the camera the configuration counts as applied.
proof fn lemma_configuration_stays_applied<H: ?Sized>(
    worker: LinuxCameraWorker<H>,
    events: Seq<WorkerEvent<H>>,
    attempt: int,
)
    requires
        0 <= attempt < events.len(),
        configures(events[attempt]),
    ensures
        run(worker, events).config_applied,
    decreases events.len(),
{
    if attempt < events.len() - 1 {
        lemma_configuration_stays_applied(worker, events.drop_last(), attempt);
    }
}

/// The output handler is the one that was set last; nothing else changes it.
pub proof fn law_output_handler_is_the_last_set<H: ?Sized>(
    worker: LinuxCameraWorker<H>,
    events: Seq<WorkerEvent<H>>,
)
    ensures
        run(worker, events).output_handler == last_handler(worker.output_handler, events),
    decreases events.len(),
{
    if events.len() > 0 {
        law_output_handler_is_the_last_set(worker, events.drop_last());
    }
}

/// Frames go to the handler that was the last one set when the last start came to open
/// the stream; nothing else changes where they go.
pub proof fn law_capture_handler_is_that_of_the_last_start<H: ?Sized>(
    worker: LinuxCameraWorker<H>,
    events: Seq<WorkerEvent<H>>,
)
    ensures
        run(worker, events).capture_handler == handler_at_last_start(
            worker.capture_handler,
            worker.output_handler,
            events,
        ),
    decreases events.len(),
{
    if events.len() > 0 {
        law_capture_handler_is_that_of_the_last_start(worker, events.drop_last());
        law_output_handler_is_the_last_set(worker, events.drop_last());
    }
}

/// While a start has the stream opened, its requests created or queued, or the camera
/// started, frames are to go to the handler that was set last.
pub proof fn law_start_takes_the_last_handler<H: ?Sized>(
    worker: LinuxCameraWorker<H>,
    events: Seq<WorkerEvent<H>>,
)
    requires
        !worker.busy(),
        possible(worker, events),
        ({
            let action = run(worker, events).awaiting;
            action is OpenStream || action is CreateRequest || action is StartCamera
                || action is SubmitRequest
        }),
    ensures
        run(worker, events).capture_handler == last_handler(worker.output_handler, events),
    decreases events.len(),
{
    if events.len() > 0 {
        let before = events.drop_last();
        law_output_handler_is_the_last_set(worker, before);
        if !settles_handler(events.last()) {
            law_start_takes_the_last_handler(worker, before);
        }
    }
}

/// As long as capture runs, its frames go to the handler that it was started with,
/// whatever handler is set meanwhile.
pub proof fn law_running_capture_keeps_its_handler<H: ?Sized>(
    worker: LinuxCameraWorker<H>,
    events: Seq<WorkerEvent<H>>,
)
    requires
        worker.wf(),
        worker.running,
        possible(worker, events),
        forall|i: int| 0 <= i < events.len() ==> !ends_stop(#[trigger] events[i]),
    ensures
        run(worker, events).running,
        run(worker, events).capture_handler == worker.capture_handler,
    decreases events.len(),
{
    if events.len() > 0 {
        let before = events.drop_last();
        assert forall|i: int| 0 <= i < before.len() implies !ends_stop(#[trigger] before[i]) by {
            assert(before[i] == events[i]);
        }
        law_running_capture_keeps_its_handler(worker, before);
        law_wf_is_kept(worker, before);
        assert(!ends_stop(events[events.len() - 1]));
    }
}

/// A handler that is set while capture runs is taken note of and changes nothing else.
/// After a stop and another start the frames go to it.
pub proof fn law_new_handler_waits_for_the_next_start<H: ?Sized>(
    worker: LinuxCameraWorker<H>,
    handler: Arc<H>,
    size: Size,
    fourcc: u32,
    name: String,
    buffers: usize,
)
    requires
        worker.wf(),
        worker.running,
        worker.awaiting is ReceiveCommand,
        deliverable(fourcc) is Some,
        size.width > 0 && size.height > 0,
    ensures
        ({
            let set = WorkerEvent::Command(CameraCmd::SetOutputHandler(handler));
            let restart = seq![
                WorkerEvent::Command(CameraCmd::Stop),
                WorkerEvent::CameraStopped,
            ] + start_events(true, size, fourcc, name, buffers);
            let later = worker.after(set);
            &&& worker.allows(set)
            &&& worker.answers(set) == seq![ResponseView::Done]
            &&& later == (LinuxCameraWorker { output_handler: Some(handler), ..worker })
            &&& possible(later, restart)
            &&& run(later, restart) == (LinuxCameraWorker {
                capture_handler: Some(handler),
                ..later
            })
            &&& all_answers(later, restart) == seq![ResponseView::Done, ResponseView::Done]
        }),
{
    let later = worker.after(WorkerEvent::Command(CameraCmd::SetOutputHandler(handler)));
    let stop: Seq<WorkerEvent<H>> = seq![
        WorkerEvent::Command(CameraCmd::Stop),
        WorkerEvent::CameraStopped,
    ];
    law_stop_undoes_start(later);
    law_start_runs_capture(run(later, stop), size, fourcc, name, buffers);
    lemma_run_in_parts(later, stop, start_events(true, size, fourcc, name, buffers));
}

/// Before the camera was acquired for the first time, a new worker refuses to stop, and
/// its frames go nowhere.
pub proof fn law_new_worker_has_nothing_to_stop<H: ?Sized>(events: Seq<WorkerEvent<H>>)
    requires
        possible(LinuxCameraWorker::<H>::initial(), events),
        forall|i: int| 0 <= i < events.len() ==> !((#[trigger] events[i]) is CameraAcquired),
    ensures
        ({
            let worker = run(LinuxCameraWorker::<H>::initial(), events);
            &&& !worker.running && !worker.camera && !worker.config_applied
            &&& worker.capture_handler is None
            &&& worker.awaiting is ReceiveCommand ==> worker.answers(
                WorkerEvent::Command(CameraCmd::Stop),
            ) == seq![ResponseView::DeviceError(DeviceErrorView::NotRunning("Not running"@))]
        }),
    decreases events.len(),
{
    if events.len() > 0 {
        let before = events.drop_last();
        assert forall|i: int| 0 <= i < before.len() implies !((
        #[trigger] before[i]) is CameraAcquired) by {
            assert(before[i] == events[i]);
        }
        law_new_worker_has_nothing_to_stop(before);
        law_every_state_is_wf(before);
        assert(!(events[events.len() - 1] is CameraAcquired));
    }
}

/// Whether an event ends a start with capture running: the camera is started without
/// buffers, or the request for the last buffer is queued.
pub open spec fn ends_start<H: ?Sized>(
    worker: LinuxCameraWorker<H>,
    event: WorkerEvent<H>,
) -> bool {
    ||| event is CameraStarted && worker.awaiting == Action::StartCamera(0)
    ||| event is RequestSubmitted && worker.awaiting->SubmitRequest_0.next() is None
}

/// Capture begins to run when the camera is started and every request is queued, and
/// ceases with a stop, whether or not that failed; no other event changes whether it
/// runs.
pub proof fn law_only_start_and_stop_change_running<H: ?Sized>(
    worker: LinuxCameraWorker<H>,
    event: WorkerEvent<H>,
)
    requires
        worker.allows(event),
    ensures
        worker.after(event).running == (ends_start(worker, event) || worker.running && !ends_stop(
            event,
        )),
{
}

/// The answer to a command is of the kind that the command asks for: a list of
/// formats is given to a request for formats alone, which is never answered as merely
/// done.
pub proof fn law_answers_fit_their_commands<H: ?Sized>(
    worker: LinuxCameraWorker<H>,
    event: WorkerEvent<H>,
    i: int,
)
    requires
        0 <= i < worker.answers(event).len(),
    ensures
        worker.awaiting is ReadFormats && worker.allows(event) ==> !(worker.answers(
            event,
        )[i] is Done),
        !(worker.awaiting is ReadFormats) && worker.allows(event) ==> !(worker.answers(
            event,
        )[i] is Formats),
{
}

/// The commands in a row of events that ask for an answer, in order.
pub open spec fn asked<H: ?Sized>(events: Seq<WorkerEvent<H>>) -> Seq<CameraCmd<H>> {
    events.filter(|event: WorkerEvent<H>| asks(event)).map_values(
        |event: WorkerEvent<H>| event->Command_0,
    )
}

/// Whether an answer is one that a command can have where no stop of the camera fails.
pub open spec fn fits<H: ?Sized>(command: CameraCmd<H>, answer: ResponseView) -> bool {
    match command {
        CameraCmd::Start => answer is Done || (answer matches ResponseView::DeviceError(error)
            && error is StartFailed),
        CameraCmd::Stop => answer is Done || (answer matches ResponseView::DeviceError(error)
            && error is NotRunning),
        CameraCmd::Shutdown => false,
        CameraCmd::SetOutputHandler(_) => answer is Done,
        CameraCmd::Configure(_) => answer is Done,
        CameraCmd::GetFormats => answer is Formats || (answer matches ResponseView::DeviceError(
            error,
        ) && error is GetFailed),
    }
}

/// Whether a busy worker is at work on a command.
spec fn serves<H: ?Sized>(worker: LinuxCameraWorker<H>, command: CameraCmd<H>) -> bool {
    match command {
        CameraCmd::Start => worker.starting(),
        CameraCmd::Stop => worker.awaiting is StopCamera,
        CameraCmd::Configure(_) => worker.awaiting is SetStream,
        CameraCmd::GetFormats => worker.awaiting is ReadFormats,
        _ => false,
    }
}

/// The answers fit the commands in order, and a busy worker is at work on the last
/// command.
proof fn lemma_answers_in_order<H: ?Sized>(
    worker: LinuxCameraWorker<H>,
    events: Seq<WorkerEvent<H>>,
)
    requires
        !worker.busy(),
        possible(worker, events),
        forall|i: int| 0 <= i < events.len() ==> !((#[trigger] events[i]) is StopFailed),
    ensures
        ({
            let answers = all_answers(worker, events);
            let end = run(worker, events);
            &&& answers.len() == asked(events).len() - (if end.busy() {
                1int
            } else {
                0int
            })
            &&& end.busy() ==> serves(end, asked(events).last())
            &&& forall|i: int|
                0 <= i < answers.len() ==> fits(asked(events)[i], #[trigger] answers[i])
        }),
    decreases events.len(),
{
    reveal(Seq::filter);
    if events.len() > 0 {
        let before = events.drop_last();
        assert forall|i: int| 0 <= i < before.len() implies !((
        #[trigger] before[i]) is StopFailed) by {
            assert(before[i] == events[i]);
        }
        lemma_answers_in_order(worker, before);
        assert(!(events[events.len() - 1] is StopFailed));
        assert(asked(events) =~= if asks(events.last()) {
            asked(before).push(events.last()->Command_0)
        } else {
            asked(before)
        });
        let earlier = all_answers(worker, before);
        let answers = all_answers(worker, events);
        assert forall|i: int| 0 <= i < answers.len() implies fits(
            asked(events)[i],
            #[trigger] answers[i],
        ) by {
            if i < earlier.len() {
                assert(answers[i] == earlier[i]);
            }
        }
    }
}

/// As long as no stop of the camera fails, each answer is one to the command in the
/// same place: the first answer fits the first command, and so on. To set a handler
/// and to configure the stream is always answered as done.
pub proof fn law_answers_come_in_order<H: ?Sized>(
    worker: LinuxCameraWorker<H>,
    events: Seq<WorkerEvent<H>>,
    i: int,
)
    requires
        !worker.busy(),
        possible(worker, events),
        forall|j: int| 0 <= j < events.len() ==> !((#[trigger] events[j]) is StopFailed),
        0 <= i < all_answers(worker, events).len(),
    ensures
        i < asked(events).len(),
        fits(asked(events)[i], all_answers(worker, events)[i]),
{
    lemma_answers_in_order(worker, events);
}

/// A worker that has not left its loop can go on: some event can come of what it
/// waits for.
pub proof fn law_worker_is_never_stuck<H: ?Sized>(worker: LinuxCameraWorker<H>)
    requires
        worker.wf(),
        !(worker.awaiting is Exit),
    ensures
        exists|event: WorkerEvent<H>| worker.allows(event),
{
    let event: WorkerEvent<H> = match worker.awaiting {
        Action::ReceiveCommand => WorkerEvent::NoCommand,
        Action::AwaitRequest => WorkerEvent::RequestTimedOut,
        Action::RequeueRequest => WorkerEvent::QueueFailed,
        Action::ReadFormats => WorkerEvent::FormatsRead { formats: arbitrary(), limits: None },
        Action::AcquireCamera => WorkerEvent::CameraAcquired,
        Action::ConfigureCamera => WorkerEvent::Configured,
        Action::ReadStream => WorkerEvent::StreamRead {
            size: Size { width: 1, height: 1 },
            fourcc: 0,
            name: arbitrary(),
        },
        Action::OpenStream(_) => WorkerEvent::StreamOpened { buffers: 0 },
        Action::CreateRequest(_) => WorkerEvent::RequestCreated,
        Action::StartCamera(_) => WorkerEvent::CameraStarted,
        Action::SubmitRequest(_) => WorkerEvent::RequestSubmitted,
        Action::StopCamera => WorkerEvent::CameraStopped,
        Action::SetStream(settings) => WorkerEvent::StreamSet(
            match settings.size {
                Some(size) => size,
                None => Size { width: 0, height: 0 },
            },
        ),
        Action::CheckAnswer => WorkerEvent::AnswerSent,
        Action::Exit => WorkerEvent::NoCommand,
    };
    assert(worker.allows(event));
}

/// Of the formats that a caller can have set on a stream, the compressed one alone
/// cannot be started.
pub proof fn law_pixel_formats_can_be_started(code: Option<u32>, fourcc: u32)
    requires
        requested_fourcc(code) == Some(fourcc),
    ensures
        deliverable(fourcc) is None <==> fourcc == FOURCC_MJPEG,
{
}

/// An error that the worker answers with is the error that the caller gets, whatever
/// the command.
pub proof fn law_errors_reach_the_caller(
    response: CameraCmdResponse,
    error: DeviceErrorView,
    unsent: DeviceErrorView,
    unanswered: DeviceErrorView,
)
    requires
        response@ == ResponseView::DeviceError(error),
    ensures
        Exchange::Answered(response).fits_action(),
        Exchange::Answered(response).fits_listing(),
        Exchange::Answered(response).outcome(unsent, unanswered) == Err::<(), DeviceErrorView>(
            error,
        ),
{
}

} // verus!
