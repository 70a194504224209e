//! How a block device is brought up, taken down and cleaned up after a failed
//! start. Each machine names the next action; the caller performs it and
//! reports what happened.
use crate::daemon::error::{DaemonError, ErrorView, in_context, plain_error};
use crate::fs_path::{FsPath, lossy_text};
use crate::text::{joined, joined3};
use vstd::prelude::*;

verus! {

/// "No such device".
pub const ENODEV: i32 = 19;

/// "Invalid argument".
pub const EINVAL: i32 = 22;

/// "Inappropriate ioctl for device".
pub const ENOTTY: i32 = 25;

/// "Operation not supported".
pub const EOPNOTSUPP: i32 = 95;

/// How long the queue workers of a device get to exit.
pub const WORKER_EXIT_SECS: u64 = 5;

/// The steps that bring a device up, in order.
#[derive(Debug, Clone, Copy, PartialEq, Eq, Structural)]
pub enum CreateStage {
    Service,
    Open,
    Target,
    Control,
    Build,
    Start,
    Wait,
}

/// What a new device serves.
#[derive(Debug, Clone, Copy, PartialEq, Eq, Structural)]
pub enum DeviceKind {
    Overlaybd,
    Cow,
}

/// The name under which the control of a device is opened.
pub open spec fn control_name(kind: DeviceKind) -> Seq<char> {
    match kind {
        DeviceKind::Overlaybd => "overlaybd-blk"@,
        DeviceKind::Cow => "cow-blk"@,
    }
}

impl DeviceKind {
    /// The name under which the control of a device is opened.
    pub fn control_name(self) -> (r: &'static str)
        ensures
            r@ == control_name(self),
            self is Overlaybd ==> r@ == "overlaybd-blk"@,
            self is Cow ==> r@ == "cow-blk"@,
    {
        match self {
            DeviceKind::Overlaybd => "overlaybd-blk",
            DeviceKind::Cow => "cow-blk",
        }
    }
}

/// What a failed step says it was doing.
pub open spec fn create_context(kind: DeviceKind, stage: CreateStage, image: Seq<u8>) -> Seq<char> {
    match stage {
        CreateStage::Service => "resolve image service for raw overlaybd device"@,
        CreateStage::Open => "open overlaybd image: "@ + lossy_text(image),
        CreateStage::Target => match kind {
            DeviceKind::Overlaybd => "create overlaybd target"@,
            DeviceKind::Cow => "create cow target"@,
        },
        CreateStage::Control => "build ublk ctrl"@,
        CreateStage::Build => "build ublk dev"@,
        CreateStage::Start => "start ublk dev"@,
        CreateStage::Wait => "wait for ublk device"@,
    }
}

/// Whether the kernel already knows the device when a step fails, so that it
/// has to be cleaned up.
pub open spec fn needs_cleanup(stage: CreateStage) -> bool {
    stage == CreateStage::Start || stage == CreateStage::Wait
}

/// The end of an attempt to bring a device up.
#[derive(Debug)]
pub struct CreateFailure {
    pub error: DaemonError,
    /// Whether the device has to be cleaned up first.
    pub cleanup: bool,
}

/// What follows when `stage` failed with `error`.
pub fn create_failed(
    kind: DeviceKind,
    stage: CreateStage,
    image: &FsPath,
    error: DaemonError,
) -> (r: CreateFailure)
    ensures
        r.error@ == in_context(create_context(kind, stage, image@), error@),
        r.cleanup == needs_cleanup(stage),
        r.cleanup <==> stage == CreateStage::Start || stage == CreateStage::Wait,
        r.error.class == error.class,
        stage == CreateStage::Open ==> r.error.message@ == "open overlaybd image: "@ + lossy_text(
            image@,
        ) + ": "@ + error.message@,
{
    let opening: String = joined("open overlaybd image: ", image.to_text_lossy().as_str());
    let context: &str = match stage {
        CreateStage::Service => "resolve image service for raw overlaybd device",
        CreateStage::Open => opening.as_str(),
        CreateStage::Target => match kind {
            DeviceKind::Overlaybd => "create overlaybd target",
            DeviceKind::Cow => "create cow target",
        },
        CreateStage::Control => "build ublk ctrl",
        CreateStage::Build => "build ublk dev",
        CreateStage::Start => "start ublk dev",
        CreateStage::Wait => "wait for ublk device",
    };
    let cleanup: bool = match stage {
        CreateStage::Start => true,
        CreateStage::Wait => true,
        _ => false,
    };
    CreateFailure { error: error.context(context), cleanup }
}

/// The step after `stage`; `None` when the device is up.
pub open spec fn stage_after(stage: CreateStage) -> Option<CreateStage> {
    match stage {
        CreateStage::Service => Some(CreateStage::Open),
        CreateStage::Open => Some(CreateStage::Target),
        CreateStage::Target => Some(CreateStage::Control),
        CreateStage::Control => Some(CreateStage::Build),
        CreateStage::Build => Some(CreateStage::Start),
        CreateStage::Start => Some(CreateStage::Wait),
        CreateStage::Wait => None,
    }
}

impl CreateStage {
    /// The step after this one; `None` when the device is up.
    pub fn next(self) -> (r: Option<CreateStage>)
        ensures
            r == stage_after(self),
            self is Service ==> r == Some(CreateStage::Open),
            self is Open ==> r == Some(CreateStage::Target),
            self is Target ==> r == Some(CreateStage::Control),
            self is Control ==> r == Some(CreateStage::Build),
            self is Build ==> r == Some(CreateStage::Start),
            self is Start ==> r == Some(CreateStage::Wait),
            self is Wait ==> r is None,
    {
        match self {
            CreateStage::Service => Some(CreateStage::Open),
            CreateStage::Open => Some(CreateStage::Target),
            CreateStage::Target => Some(CreateStage::Control),
            CreateStage::Control => Some(CreateStage::Build),
            CreateStage::Build => Some(CreateStage::Start),
            CreateStage::Start => Some(CreateStage::Wait),
            CreateStage::Wait => None,
        }
    }
}

/// Where the clean-up of a device stands.
#[derive(Debug, Clone, Copy, PartialEq, Eq, Structural)]
pub enum CleanupState {
    /// The device was told to stop.
    Stopping,
    /// Its queue workers are exiting.
    Waiting,
    /// Its handle is being dropped; the kernel still has the device.
    Dropping,
    /// Its handle is being dropped; the kernel has the device no more.
    DroppingGone,
    /// A fresh control handle is being opened.
    Opening,
    /// The kernel was told to delete it.
    Deleting,
    /// Nothing is left to do.
    Finished,
}

/// What happened to the action of a clean-up.
#[derive(Debug, Clone, Copy, PartialEq, Eq, Structural)]
pub enum CleanupEvent {
    /// The action succeeded.
    Succeeded,
    /// It failed, with this error number where the failure has one.
    Failed { errno: Option<i32> },
}

/// What is done next in a clean-up.
#[derive(Debug, Clone, Copy, PartialEq, Eq, Structural)]
pub enum CleanupAction {
    StopDevice,
    WaitForWorkers { timeout_secs: u64 },
    DropHandle,
    OpenControl,
    DeleteDevice,
    Finish(CleanupEnd),
}

/// How a clean-up ended.
#[derive(Debug, Clone, Copy, PartialEq, Eq, Structural)]
pub enum CleanupEnd {
    /// The device was gone before it could be stopped.
    Disappeared,
    /// The device was deleted.
    Deleted,
    /// The device had been deleted already.
    AlreadyDeleted,
    /// The kernel may still have the device.
    MayRemain,
}

/// Whether a failure says that the kernel does not know the device.
pub open spec fn says_gone(event: CleanupEvent) -> bool {
    event == (CleanupEvent::Failed { errno: Some(ENODEV) })
}

/// The state and the action after `event` in `state`.
pub open spec fn cleanup_next(state: CleanupState, event: CleanupEvent) -> (
    CleanupState,
    CleanupAction,
) {
    match state {
        CleanupState::Stopping => if says_gone(event) {
            (CleanupState::DroppingGone, CleanupAction::DropHandle)
        } else {
            (
                CleanupState::Waiting,
                CleanupAction::WaitForWorkers { timeout_secs: WORKER_EXIT_SECS },
            )
        },
        CleanupState::Waiting => (CleanupState::Dropping, CleanupAction::DropHandle),
        CleanupState::Dropping => (CleanupState::Opening, CleanupAction::OpenControl),
        CleanupState::DroppingGone => (
            CleanupState::Finished,
            CleanupAction::Finish(CleanupEnd::Disappeared),
        ),
        CleanupState::Opening => if event is Succeeded {
            (CleanupState::Deleting, CleanupAction::DeleteDevice)
        } else {
            (CleanupState::Finished, CleanupAction::Finish(CleanupEnd::MayRemain))
        },
        CleanupState::Deleting => (
            CleanupState::Finished,
            CleanupAction::Finish(
                if event is Succeeded {
                    CleanupEnd::Deleted
                } else if says_gone(event) {
                    CleanupEnd::AlreadyDeleted
                } else {
                    CleanupEnd::MayRemain
                },
            ),
        ),
        CleanupState::Finished => (
            CleanupState::Finished,
            CleanupAction::Finish(CleanupEnd::MayRemain),
        ),
    }
}

/// The first action of the clean-up of a device whose start failed.
pub fn begin_cleanup() -> (r: (CleanupState, CleanupAction))
    ensures
        r == (CleanupState::Stopping, CleanupAction::StopDevice),
{
    (CleanupState::Stopping, CleanupAction::StopDevice)
}

/// The state and the action after `event` in `state`.
pub fn cleanup_step(state: CleanupState, event: CleanupEvent) -> (r: (CleanupState, CleanupAction))
    requires
        state != CleanupState::Finished,
    ensures
        r == cleanup_next(state, event),
{
    let gone: bool = match event {
        CleanupEvent::Failed { errno: Some(errno) } => errno == ENODEV,
        _ => false,
    };
    let succeeded: bool = match event {
        CleanupEvent::Succeeded => true,
        CleanupEvent::Failed { .. } => false,
    };
    match state {
        CleanupState::Stopping => if gone {
            (CleanupState::DroppingGone, CleanupAction::DropHandle)
        } else {
            (
                CleanupState::Waiting,
                CleanupAction::WaitForWorkers { timeout_secs: WORKER_EXIT_SECS },
            )
        },
        CleanupState::Waiting => (CleanupState::Dropping, CleanupAction::DropHandle),
        CleanupState::Dropping => (CleanupState::Opening, CleanupAction::OpenControl),
        CleanupState::DroppingGone => (
            CleanupState::Finished,
            CleanupAction::Finish(CleanupEnd::Disappeared),
        ),
        CleanupState::Opening => if succeeded {
            (CleanupState::Deleting, CleanupAction::DeleteDevice)
        } else {
            (CleanupState::Finished, CleanupAction::Finish(CleanupEnd::MayRemain))
        },
        _ => if succeeded {
            (CleanupState::Finished, CleanupAction::Finish(CleanupEnd::Deleted))
        } else if gone {
            (CleanupState::Finished, CleanupAction::Finish(CleanupEnd::AlreadyDeleted))
        } else {
            (CleanupState::Finished, CleanupAction::Finish(CleanupEnd::MayRemain))
        },
    }
}

/// The actions of a clean-up whose events are `events`, one action for each
/// event, starting in `state`.
pub open spec fn cleanup_run(state: CleanupState, events: Seq<CleanupEvent>) -> Seq<CleanupAction>
    decreases events.len(),
{
    if events.len() == 0 {
        Seq::empty()
    } else {
        let (next, action) = cleanup_next(state, events[0]);
        seq![action] + cleanup_run(next, events.drop_first())
    }
}

/// How many events a clean-up in `state` can still take.
pub open spec fn cleanup_rank(state: CleanupState) -> nat {
    match state {
        CleanupState::Stopping => 5,
        CleanupState::Waiting => 4,
        CleanupState::Dropping => 3,
        CleanupState::DroppingGone => 1,
        CleanupState::Opening => 2,
        CleanupState::Deleting => 1,
        CleanupState::Finished => 0,
    }
}

/// A clean-up ends: every event brings it nearer to its end.
pub proof fn law_cleanup_ends(state: CleanupState, event: CleanupEvent)
    requires
        state != CleanupState::Finished,
    ensures
        cleanup_rank(cleanup_next(state, event).0) < cleanup_rank(state),
        cleanup_next(state, event).0 == CleanupState::Finished <==> cleanup_next(
            state,
            event,
        ).1 is Finish,
{
}

/// The kernel is told to delete a device only after the handle on it was
/// dropped: a delete with an open handle would never return.
pub proof fn law_cleanup_drops_before_delete(events: Seq<CleanupEvent>, k: int)
    requires
        0 <= k < events.len(),
        cleanup_run(CleanupState::Stopping, events)[k] == CleanupAction::DeleteDevice,
    ensures
        exists|j: int|
            0 <= j < k && cleanup_run(CleanupState::Stopping, events)[j]
                == CleanupAction::DropHandle,
{
    let run = cleanup_run(CleanupState::Stopping, events);
    lemma_cleanup_run_len(CleanupState::Stopping, events);
    let rest1 = events.drop_first();
    reveal_with_fuel(cleanup_run, 3);
    let next1 = cleanup_next(CleanupState::Stopping, events[0]).0;
    if next1 == CleanupState::DroppingGone {
        assert(run[0] == CleanupAction::DropHandle);
    } else {
        assert(run =~= seq![run[0]] + cleanup_run(CleanupState::Waiting, rest1));
        if events.len() > 1 {
            assert(cleanup_run(CleanupState::Waiting, rest1)[0] == CleanupAction::DropHandle);
            assert(run[1] == CleanupAction::DropHandle);
        }
    }
}

proof fn lemma_cleanup_run_len(state: CleanupState, events: Seq<CleanupEvent>)
    ensures
        cleanup_run(state, events).len() == events.len(),
    decreases events.len(),
{
    if events.len() > 0 {
        lemma_cleanup_run_len(cleanup_next(state, events[0]).0, events.drop_first());
    }
}

/// Where the stop of a device stands.
#[derive(Debug, Clone, Copy, PartialEq, Eq, Structural)]
pub enum StopState {
    Stopping,
    Waiting,
    Dropping,
    Deleting,
}

/// What is done next to stop a device. `DeleteDevice` is the last action; its
/// result is the result of the stop.
#[derive(Debug, Clone, Copy, PartialEq, Eq, Structural)]
pub enum StopAction {
    StopDevice,
    WaitForWorkers { timeout_secs: u64 },
    DropHandle,
    DeleteDevice,
}

/// The state and the action of a stop after the action of `state` ended, with
/// success or without. A device that could not be told to stop is not waited
/// for; its handle is dropped and it is deleted all the same.
pub open spec fn stop_next(state: StopState, succeeded: bool) -> (StopState, StopAction) {
    match state {
        StopState::Stopping => if succeeded {
            (StopState::Waiting, StopAction::WaitForWorkers { timeout_secs: WORKER_EXIT_SECS })
        } else {
            (StopState::Dropping, StopAction::DropHandle)
        },
        StopState::Waiting => (StopState::Dropping, StopAction::DropHandle),
        StopState::Dropping => (StopState::Deleting, StopAction::DeleteDevice),
        StopState::Deleting => (StopState::Deleting, StopAction::DeleteDevice),
    }
}

/// The first action of a stop.
pub fn begin_stop() -> (r: (StopState, StopAction))
    ensures
        r == (StopState::Stopping, StopAction::StopDevice),
{
    (StopState::Stopping, StopAction::StopDevice)
}

/// The state and the action of a stop after the action of `state` ended.
pub fn stop_step(state: StopState, succeeded: bool) -> (r: (StopState, StopAction))
    requires
        state != StopState::Deleting,
    ensures
        r == stop_next(state, succeeded),
{
    match state {
        StopState::Stopping => if succeeded {
            (StopState::Waiting, StopAction::WaitForWorkers { timeout_secs: WORKER_EXIT_SECS })
        } else {
            (StopState::Dropping, StopAction::DropHandle)
        },
        StopState::Waiting => (StopState::Dropping, StopAction::DropHandle),
        _ => (StopState::Deleting, StopAction::DeleteDevice),
    }
}

/// A stop deletes the device exactly when its handle was dropped.
pub proof fn law_stop_drops_before_delete(state: StopState, succeeded: bool)
    requires
        state != StopState::Deleting,
    ensures
        stop_next(state, succeeded).1 == StopAction::DeleteDevice <==> state
            == StopState::Dropping,
        stop_next(state, succeeded).0 == StopState::Dropping ==> stop_next(state, succeeded).1
            == StopAction::DropHandle,
{
}

/// Whether the error number says that the driver has no feature query.
pub open spec fn query_unsupported(errno: Option<i32>) -> bool {
    match errno {
        Some(errno) => errno == ENOTTY || errno == EINVAL || errno == EOPNOTSUPP,
        None => false,
    }
}

/// The features of a driver that answered a query with `flags`, or failed with
/// an error and its number. A driver without the query has no features.
pub fn detected_features(answer: Result<u64, (Option<i32>, DaemonError)>) -> (r: Result<
    u64,
    DaemonError,
>)
    ensures
        match answer {
            Ok(flags) => r == Ok::<u64, DaemonError>(flags),
            Err((errno, error)) => if query_unsupported(errno) {
                r == Ok::<u64, DaemonError>(0)
            } else {
                r is Err && r->Err_0@ == in_context("get ublk features"@, error@)
            },
        },
        answer matches Err((errno, _)) ==> (r is Ok <==> errno == Some(25i32) || errno == Some(
            22i32,
        ) || errno == Some(95i32)),
{
    match answer {
        Ok(flags) => Ok(flags),
        Err((errno, error)) => {
            let unsupported: bool = match errno {
                Some(errno) => errno == ENOTTY || errno == EINVAL || errno == EOPNOTSUPP,
                None => false,
            };
            if unsupported {
                Ok(0)
            } else {
                Err(error.context("get ublk features"))
            }
        },
    }
}

/// The steps of a daemon, in order.
#[derive(Debug, Clone, Copy, PartialEq, Eq, Structural)]
pub enum ServeStep {
    /// Whether something is at the path of the control socket, and whether it
    /// answers.
    InspectSocket,
    /// A socket that nobody answers on is removed.
    RemoveStale,
    Bind,
    /// Whoever waits for the daemon is told that it is up.
    SignalReady,
    /// Connections are accepted, each served on its own, until a shutdown is
    /// asked for.
    Accept,
    /// Every device is stopped.
    StopDevices,
    /// The control socket is removed, if that is possible.
    RemoveSocket,
    Done,
}

/// What happened in a step of a daemon.
#[derive(Debug)]
pub enum ServeEvent {
    Succeeded,
    /// Something is at the path of the control socket; `answered` says whether
    /// a connection to it succeeded.
    Occupied { answered: bool },
    Failed(DaemonError),
}

/// Whether `event` can happen in `step`.
pub open spec fn serve_expects(step: ServeStep, event: ServeEvent) -> bool {
    match step {
        ServeStep::InspectSocket => event is Succeeded || event is Occupied,
        ServeStep::Done => false,
        _ => event is Succeeded || event is Failed,
    }
}

/// The step after `step` when all went well; a free path is bound at once.
pub open spec fn serve_following(step: ServeStep) -> ServeStep {
    match step {
        ServeStep::InspectSocket => ServeStep::Bind,
        ServeStep::RemoveStale => ServeStep::Bind,
        ServeStep::Bind => ServeStep::SignalReady,
        ServeStep::SignalReady => ServeStep::Accept,
        ServeStep::Accept => ServeStep::StopDevices,
        ServeStep::StopDevices => ServeStep::RemoveSocket,
        _ => ServeStep::Done,
    }
}

/// What follows after `event` in `step`: the next step, or the error with which
/// the daemon ends. A daemon that was up stops its devices and ends without an
/// error even where the socket cannot be removed.
pub open spec fn serve_next(step: ServeStep, event: ServeEvent, socket: Seq<u8>) -> Result<
    ServeStep,
    ErrorView,
> {
    match event {
        ServeEvent::Succeeded => Ok(serve_following(step)),
        ServeEvent::Occupied { answered } => if answered {
            Err(
                plain_error(
                    "daemon socket "@ + lossy_text(socket) + " is in use by another process"@,
                ),
            )
        } else {
            Ok(ServeStep::RemoveStale)
        },
        ServeEvent::Failed(error) => match step {
            ServeStep::RemoveStale => Err(
                in_context("remove stale daemon socket: "@ + lossy_text(socket), error@),
            ),
            ServeStep::Bind => Err(
                in_context("bind daemon socket: "@ + lossy_text(socket), error@),
            ),
            ServeStep::SignalReady => Err(error@),
            ServeStep::Accept => Err(in_context("accept daemon connection"@, error@)),
            _ => Ok(serve_following(step)),
        },
    }
}

/// What follows after `event` in `step` of a daemon with the control socket
/// `socket`.
pub fn serve_step(step: ServeStep, event: ServeEvent, socket: &FsPath) -> (r: Result<
    ServeStep,
    DaemonError,
>)
    requires
        serve_expects(step, event),
    ensures
        match serve_next(step, event, socket@) {
            Ok(next) => r matches Ok(got) && got == next,
            Err(error) => r matches Err(got) && got@ == error,
        },
{
    let next: ServeStep = match step {
        ServeStep::InspectSocket => ServeStep::Bind,
        ServeStep::RemoveStale => ServeStep::Bind,
        ServeStep::Bind => ServeStep::SignalReady,
        ServeStep::SignalReady => ServeStep::Accept,
        ServeStep::Accept => ServeStep::StopDevices,
        ServeStep::StopDevices => ServeStep::RemoveSocket,
        _ => ServeStep::Done,
    };
    match event {
        ServeEvent::Succeeded => Ok(next),
        ServeEvent::Occupied { answered } => if answered {
            Err(
                DaemonError::plain(
                    joined3(
                        "daemon socket ",
                        socket.to_text_lossy().as_str(),
                        " is in use by another process",
                    ),
                ),
            )
        } else {
            Ok(ServeStep::RemoveStale)
        },
        ServeEvent::Failed(error) => match step {
            ServeStep::RemoveStale => Err(
                error.context(
                    joined(
                        "remove stale daemon socket: ",
                        socket.to_text_lossy().as_str(),
                    ).as_str(),
                ),
            ),
            ServeStep::Bind => Err(
                error.context(
                    joined("bind daemon socket: ", socket.to_text_lossy().as_str()).as_str(),
                ),
            ),
            ServeStep::SignalReady => Err(error),
            ServeStep::Accept => Err(error.context("accept daemon connection")),
            _ => Ok(next),
        },
    }
}

/// A daemon never removes a socket that another process answers on, and tells
/// that it is up only once it bound its own.
pub proof fn law_answering_socket_is_kept(step: ServeStep, event: ServeEvent, socket: Seq<u8>)
    requires
        serve_expects(step, event),
    ensures
        serve_next(step, event, socket) == Ok::<ServeStep, ErrorView>(ServeStep::RemoveStale)
            <==> event == (ServeEvent::Occupied { answered: false }),
        event == (ServeEvent::Occupied { answered: true }) ==> serve_next(step, event, socket)
            is Err,
        serve_next(step, event, socket) == Ok::<ServeStep, ErrorView>(ServeStep::SignalReady)
            ==> step == ServeStep::Bind && event is Succeeded,
{
}

/// How the clean-up of a device that did not start goes on. It is told to stop;
/// where the kernel says that there is no such device, the handle is dropped and
/// that is all. Else its workers get five seconds, whatever became of the stop,
/// the handle is dropped, a fresh control handle is opened and the device is
/// deleted. The kernel may still have it exactly where the control handle could
/// not be opened, or the delete failed for another reason than that there is no
/// such device.
pub proof fn law_cleanup_steps(event: CleanupEvent)
    ensures
        ({
            let gone = event == (CleanupEvent::Failed { errno: Some(19i32) });
            &&& gone ==> cleanup_next(CleanupState::Stopping, event) == (
                CleanupState::DroppingGone,
                CleanupAction::DropHandle,
            )
            &&& !gone ==> cleanup_next(CleanupState::Stopping, event) == (
                CleanupState::Waiting,
                CleanupAction::WaitForWorkers { timeout_secs: 5 },
            )
            &&& cleanup_next(CleanupState::DroppingGone, event) == (
                CleanupState::Finished,
                CleanupAction::Finish(CleanupEnd::Disappeared),
            )
            &&& cleanup_next(CleanupState::Waiting, event) == (
                CleanupState::Dropping,
                CleanupAction::DropHandle,
            )
            &&& cleanup_next(CleanupState::Dropping, event) == (
                CleanupState::Opening,
                CleanupAction::OpenControl,
            )
            &&& event is Succeeded ==> cleanup_next(CleanupState::Opening, event) == (
                CleanupState::Deleting,
                CleanupAction::DeleteDevice,
            )
            &&& event is Failed ==> cleanup_next(CleanupState::Opening, event) == (
                CleanupState::Finished,
                CleanupAction::Finish(CleanupEnd::MayRemain),
            )
            &&& cleanup_next(CleanupState::Deleting, event).0 is Finished
            &&& cleanup_next(CleanupState::Deleting, event).1 == CleanupAction::Finish(
                CleanupEnd::Deleted,
            ) <==> event is Succeeded
            &&& cleanup_next(CleanupState::Deleting, event).1 == CleanupAction::Finish(
                CleanupEnd::AlreadyDeleted,
            ) <==> gone
            &&& cleanup_next(CleanupState::Deleting, event).1 == CleanupAction::Finish(
                CleanupEnd::MayRemain,
            ) <==> event is Failed && !gone
        }),
{
}

/// A device that is stopped is told to stop; where that succeeded its workers get
/// five seconds; in any case its handle is dropped and it is deleted.
pub proof fn law_stop_steps(succeeded: bool)
    ensures
        stop_next(StopState::Stopping, true) == (
            StopState::Waiting,
            StopAction::WaitForWorkers { timeout_secs: 5 },
        ),
        stop_next(StopState::Stopping, false) == (StopState::Dropping, StopAction::DropHandle),
        stop_next(StopState::Waiting, succeeded) == (StopState::Dropping, StopAction::DropHandle),
        stop_next(StopState::Dropping, succeeded) == (
            StopState::Deleting,
            StopAction::DeleteDevice,
        ),
{
}

/// A daemon looks at its socket, removes one that nobody answers on, binds its
/// own, tells that it is up, serves until it is asked to stop, stops every device
/// and removes its socket. Until it serves, any failure ends it with an error;
/// after that it ends well, and every device is stopped.
pub proof fn law_serve_steps(step: ServeStep, event: ServeEvent, socket: Seq<u8>)
    requires
        serve_expects(step, event),
    ensures
        ({
            let next = serve_next(step, event, socket);
            &&& step is InspectSocket && event is Succeeded ==> next == Ok::<ServeStep, ErrorView>(
                ServeStep::Bind,
            )
            &&& event matches ServeEvent::Occupied { answered } ==> (answered <==> next is Err) && (
            !answered ==> next == Ok::<ServeStep, ErrorView>(ServeStep::RemoveStale))
            &&& step is RemoveStale && event is Succeeded ==> next == Ok::<ServeStep, ErrorView>(
                ServeStep::Bind,
            )
            &&& step is Bind && event is Succeeded ==> next == Ok::<ServeStep, ErrorView>(
                ServeStep::SignalReady,
            )
            &&& step is SignalReady && event is Succeeded ==> next == Ok::<ServeStep, ErrorView>(
                ServeStep::Accept,
            )
            &&& step is Accept && event is Succeeded ==> next == Ok::<ServeStep, ErrorView>(
                ServeStep::StopDevices,
            )
            &&& step is StopDevices ==> next == Ok::<ServeStep, ErrorView>(ServeStep::RemoveSocket)
            &&& step is RemoveSocket ==> next == Ok::<ServeStep, ErrorView>(ServeStep::Done)
            &&& event matches ServeEvent::Failed(error) ==> (next is Err <==> step is RemoveStale
                || step is Bind || step is SignalReady || step is Accept) && (next
                matches Err(told) ==> told.class == error.class)
        }),
{
}

/// The kernel has no feature query exactly where it answers with "inappropriate
/// ioctl", "invalid argument" or "operation not supported"; and a device is
/// cleaned up exactly where it failed to start or to appear.
pub proof fn law_feature_query(errno: Option<i32>)
    ensures
        query_unsupported(errno) <==> errno == Some(25i32) || errno == Some(22i32) || errno
            == Some(95i32),
        needs_cleanup(CreateStage::Start) && needs_cleanup(CreateStage::Wait),
        !needs_cleanup(CreateStage::Service) && !needs_cleanup(CreateStage::Open),
        !needs_cleanup(CreateStage::Target) && !needs_cleanup(CreateStage::Control),
        !needs_cleanup(CreateStage::Build),
{
}

} // verus!
