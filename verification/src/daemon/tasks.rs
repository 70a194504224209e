//! Acquiring and releasing a device of the pool, step by step. The caller
//! performs each action and reports what happened; the next action follows
//! from that and from the pool.
use crate::daemon::error::{DaemonError, ErrorView, in_context, plain_error};
use crate::daemon::handlers::{AcquireStage, acquire_context, acquire_failed, pool_missing};
use crate::daemon::pool::{
    AcquireOutcome, AcquirePlan, AcquireRequest, PlanView, PoolState, PoolView, ReleasePlan,
    ReleaseView, RequestView, ReturnOutcome, acquire_begun, acquire_finished, joinable,
    prewarmed, refill_ended, release_begun, returned,
};
use crate::daemon::tables::{Device, DeviceView, ImageInfo};
use crate::daemon::warm_pool::{PooledDevice, PooledView, missing};
use vstd::prelude::*;

verus! {

/// Where an acquire stands.
#[derive(Debug)]
pub enum AcquireState {
    /// The image service is being looked up.
    Service,
    /// The image is being opened, under the read lock of its configuration.
    Opening,
    /// An idle device is being bound to the image.
    Swapping { pooled: PooledDevice, resize: bool, image: ImageInfo },
    /// It is changing its size.
    Resizing { device: Device, image: ImageInfo },
    /// A new device is being made.
    Creating { image: ImageInfo },
    /// A superfluous device is being stopped; the client gets `device`.
    Stopping { device: Device },
    Finished,
}

/// The model of an acquire state.
pub enum AcquireStateView {
    Service,
    Opening,
    Swapping { pooled: PooledView, resize: bool, image: ImageInfo },
    Resizing { device: DeviceView, image: ImageInfo },
    Creating { image: ImageInfo },
    Stopping { device: DeviceView },
    Finished,
}

impl View for AcquireState {
    type V = AcquireStateView;

    open spec fn view(&self) -> AcquireStateView {
        match *self {
            AcquireState::Service => AcquireStateView::Service,
            AcquireState::Opening => AcquireStateView::Opening,
            AcquireState::Swapping { pooled, resize, image } => AcquireStateView::Swapping {
                pooled: pooled@,
                resize,
                image,
            },
            AcquireState::Resizing { device, image } => AcquireStateView::Resizing {
                device: device@,
                image,
            },
            AcquireState::Creating { image } => AcquireStateView::Creating { image },
            AcquireState::Stopping { device } => AcquireStateView::Stopping { device: device@ },
            AcquireState::Finished => AcquireStateView::Finished,
        }
    }
}

/// What happened in an acquire.
#[derive(Debug)]
pub enum AcquireEvent {
    Succeeded,
    ImageOpened(ImageInfo),
    DeviceCreated(Device),
    Failed(DaemonError),
}

/// The model of an acquire event.
pub enum AcquireEventView {
    Succeeded,
    ImageOpened(ImageInfo),
    DeviceCreated(DeviceView),
    Failed(ErrorView),
}

impl View for AcquireEvent {
    type V = AcquireEventView;

    open spec fn view(&self) -> AcquireEventView {
        match *self {
            AcquireEvent::Succeeded => AcquireEventView::Succeeded,
            AcquireEvent::ImageOpened(image) => AcquireEventView::ImageOpened(image),
            AcquireEvent::DeviceCreated(device) => AcquireEventView::DeviceCreated(device@),
            AcquireEvent::Failed(error) => AcquireEventView::Failed(error@),
        }
    }
}

/// What is done next in an acquire.
#[derive(Debug)]
pub enum AcquireAction {
    ResolveService,
    OpenImage,
    /// The idle device is bound to the image.
    Swap { dev_id: u32, discard: bool },
    Resize { dev_id: u32, sectors: u64 },
    CreateDevice { discard: bool },
    Stop { device: Device },
    /// The client gets the device; a refill of the idle pool with devices of
    /// this many bytes is started where one is given.
    Reply { device: Device, refill: Option<u64> },
    Fail(DaemonError),
}

/// The model of an acquire action.
pub enum AcquireActionView {
    ResolveService,
    OpenImage,
    Swap { dev_id: u32, discard: bool },
    Resize { dev_id: u32, sectors: u64 },
    CreateDevice { discard: bool },
    Stop { device: DeviceView },
    Reply { device: DeviceView, refill: Option<u64> },
    Fail(ErrorView),
}

impl View for AcquireAction {
    type V = AcquireActionView;

    open spec fn view(&self) -> AcquireActionView {
        match *self {
            AcquireAction::ResolveService => AcquireActionView::ResolveService,
            AcquireAction::OpenImage => AcquireActionView::OpenImage,
            AcquireAction::Swap { dev_id, discard } => AcquireActionView::Swap { dev_id, discard },
            AcquireAction::Resize { dev_id, sectors } => AcquireActionView::Resize {
                dev_id,
                sectors,
            },
            AcquireAction::CreateDevice { discard } => AcquireActionView::CreateDevice { discard },
            AcquireAction::Stop { device } => AcquireActionView::Stop { device: device@ },
            AcquireAction::Reply { device, refill } => AcquireActionView::Reply {
                device: device@,
                refill,
            },
            AcquireAction::Fail(error) => AcquireActionView::Fail(error@),
        }
    }
}

/// Whether `event` can happen in `state`.
pub open spec fn acquire_expects(state: AcquireStateView, event: AcquireEventView) -> bool {
    match state {
        AcquireStateView::Service => event is Succeeded || event is Failed,
        AcquireStateView::Opening => event is ImageOpened || event is Failed,
        AcquireStateView::Swapping { .. } => event is Succeeded || event is Failed,
        AcquireStateView::Resizing { .. } => event is Succeeded || event is Failed,
        AcquireStateView::Creating { .. } => event is DeviceCreated || event is Failed,
        AcquireStateView::Stopping { .. } => event is Succeeded,
        AcquireStateView::Finished => false,
    }
}

/// The step of an acquire that `state` is in.
pub open spec fn acquire_stage(state: AcquireStateView) -> AcquireStage {
    match state {
        AcquireStateView::Service => AcquireStage::Service,
        AcquireStateView::Opening => AcquireStage::Open,
        AcquireStateView::Swapping { .. } => AcquireStage::Swap,
        AcquireStateView::Resizing { device, .. } => AcquireStage::Resize { dev_id: device.id },
        _ => AcquireStage::Create,
    }
}

/// What follows once `device` serves the image: the pool, the state and the
/// action.
pub open spec fn acquire_settled(
    pool: PoolView,
    request: RequestView,
    image: ImageInfo,
    device: DeviceView,
) -> (PoolView, AcquireStateView, AcquireActionView) {
    let (after, outcome) = acquire_finished(pool, request, image, device);
    match outcome.stop {
        Some(excess) => (
            after,
            AcquireStateView::Stopping { device: outcome.device },
            AcquireActionView::Stop { device: excess },
        ),
        None => (
            after,
            AcquireStateView::Finished,
            AcquireActionView::Reply {
                device: outcome.device,
                refill: if outcome.refill {
                    Some(image.size_bytes)
                } else {
                    None
                },
            },
        ),
    }
}

/// The pool, the state and the action of an acquire after `event` in `state`.
pub open spec fn acquire_next(
    pool: PoolView,
    request: RequestView,
    state: AcquireStateView,
    event: AcquireEventView,
) -> (PoolView, AcquireStateView, AcquireActionView) {
    match event {
        AcquireEventView::Failed(error) => (
            pool,
            AcquireStateView::Finished,
            AcquireActionView::Fail(
                in_context(
                    acquire_context(
                        acquire_stage(state),
                        request.access_mode,
                        request.image_config,
                    ),
                    error,
                ),
            ),
        ),
        AcquireEventView::ImageOpened(image) => {
            let (after, plan) = acquire_begun(pool, request, image);
            match plan {
                PlanView::Refused(error) => (
                    after,
                    AcquireStateView::Finished,
                    AcquireActionView::Fail(error),
                ),
                PlanView::Joined(device) => (
                    after,
                    AcquireStateView::Finished,
                    AcquireActionView::Reply { device, refill: None },
                ),
                PlanView::Reuse { pooled, resize } => (
                    after,
                    AcquireStateView::Swapping { pooled, resize, image },
                    AcquireActionView::Swap {
                        dev_id: pooled.device.id,
                        discard: !image.read_only,
                    },
                ),
                PlanView::Create => (
                    after,
                    AcquireStateView::Creating { image },
                    AcquireActionView::CreateDevice { discard: !image.read_only },
                ),
            }
        },
        AcquireEventView::DeviceCreated(device) => match state {
            AcquireStateView::Creating { image } => acquire_settled(pool, request, image, device),
            _ => (pool, state, AcquireActionView::OpenImage),
        },
        AcquireEventView::Succeeded => match state {
            AcquireStateView::Swapping { pooled, resize, image } => if resize {
                (
                    pool,
                    AcquireStateView::Resizing { device: pooled.device, image },
                    AcquireActionView::Resize { dev_id: pooled.device.id, sectors: image.sectors },
                )
            } else {
                acquire_settled(pool, request, image, pooled.device)
            },
            AcquireStateView::Resizing { device, image } => acquire_settled(
                pool,
                request,
                image,
                device,
            ),
            AcquireStateView::Stopping { device } => (
                pool,
                AcquireStateView::Finished,
                AcquireActionView::Reply { device, refill: None },
            ),
            _ => (pool, AcquireStateView::Opening, AcquireActionView::OpenImage),
        },
    }
}

/// An acquire request that is being served.
#[derive(Debug)]
pub struct AcquireTask {
    pub request: AcquireRequest,
    pub state: AcquireState,
}

impl AcquireTask {
    /// Begins to serve `request`, where there is a pool.
    pub fn begin(request: AcquireRequest, pooled: bool) -> (r: Result<
        (AcquireTask, AcquireAction),
        DaemonError,
    >)
        ensures
            pooled ==> (r matches Ok((task, action)) && task.request == request && task.state@
                == AcquireStateView::Service && action@ == AcquireActionView::ResolveService),
            !pooled ==> (r matches Err(error) && error@ == plain_error("warm pool not enabled"@)),
    {
        if pooled {
            Ok(
                (
                    AcquireTask { request, state: AcquireState::Service },
                    AcquireAction::ResolveService,
                ),
            )
        } else {
            Err(pool_missing())
        }
    }

    fn settle(request: &AcquireRequest, pool: &mut PoolState, image: ImageInfo, device: Device) -> (r:
        (AcquireState, AcquireAction))
        requires
            old(pool).inv(),
            joinable(old(pool)@, request@),
        ensures
            final(pool).inv(),
            (final(pool)@, r.0@, r.1@) == acquire_settled(
                old(pool)@,
                request@,
                image,
                device@,
            ),
    {
        let outcome: AcquireOutcome = pool.finish_acquire(request, image, device);
        match outcome.stop {
            Some(excess) => (
                AcquireState::Stopping { device: outcome.device },
                AcquireAction::Stop { device: excess },
            ),
            None => {
                let refill: Option<u64> = if outcome.refill {
                    Some(image.size_bytes)
                } else {
                    None
                };
                (AcquireState::Finished, AcquireAction::Reply { device: outcome.device, refill })
            },
        }
    }

    /// The task and the action after `event`.
    pub fn step(self, pool: &mut PoolState, event: AcquireEvent) -> (r: (
        AcquireTask,
        AcquireAction,
    ))
        requires
            old(pool).inv(),
            acquire_expects(self.state@, event@),
            event@ is Failed || joinable(old(pool)@, self.request@),
        ensures
            final(pool).inv(),
            r.0.request == self.request,
            (final(pool)@, r.0.state@, r.1@) == acquire_next(
                old(pool)@,
                self.request@,
                self.state@,
                event@,
            ),
    {
        let request: AcquireRequest = self.request;
        let (state, action): (AcquireState, AcquireAction) = match event {
            AcquireEvent::Failed(error) => {
                let stage: AcquireStage = match &self.state {
                    AcquireState::Service => AcquireStage::Service,
                    AcquireState::Opening => AcquireStage::Open,
                    AcquireState::Swapping { .. } => AcquireStage::Swap,
                    AcquireState::Resizing { device, .. } => AcquireStage::Resize {
                        dev_id: device.id,
                    },
                    _ => AcquireStage::Create,
                };
                (AcquireState::Finished, AcquireAction::Fail(acquire_failed(stage, &request, error)))
            },
            AcquireEvent::ImageOpened(image) => match pool.begin_acquire(&request, image) {
                AcquirePlan::Refused(error) => (
                    AcquireState::Finished,
                    AcquireAction::Fail(error),
                ),
                AcquirePlan::Joined(device) => (
                    AcquireState::Finished,
                    AcquireAction::Reply { device, refill: None },
                ),
                AcquirePlan::Reuse { pooled, resize } => {
                    let dev_id: u32 = pooled.device.id;
                    (
                        AcquireState::Swapping { pooled, resize, image },
                        AcquireAction::Swap { dev_id, discard: !image.read_only },
                    )
                },
                AcquirePlan::Create => (
                    AcquireState::Creating { image },
                    AcquireAction::CreateDevice { discard: !image.read_only },
                ),
            },
            AcquireEvent::DeviceCreated(device) => match self.state {
                AcquireState::Creating { image } => AcquireTask::settle(
                    &request,
                    pool,
                    image,
                    device,
                ),
                state => (state, AcquireAction::OpenImage),
            },
            AcquireEvent::Succeeded => match self.state {
                AcquireState::Swapping { pooled, resize, image } => if resize {
                    let dev_id: u32 = pooled.device.id;
                    (
                        AcquireState::Resizing { device: pooled.device, image },
                        AcquireAction::Resize { dev_id, sectors: image.sectors },
                    )
                } else {
                    AcquireTask::settle(&request, pool, image, pooled.device)
                },
                AcquireState::Resizing { device, image } => AcquireTask::settle(
                    &request,
                    pool,
                    image,
                    device,
                ),
                AcquireState::Stopping { device } => (
                    AcquireState::Finished,
                    AcquireAction::Reply { device, refill: None },
                ),
                _ => (AcquireState::Opening, AcquireAction::OpenImage),
            },
        };
        (AcquireTask { request, state }, action)
    }
}

/// Where a release stands.
#[derive(Debug)]
pub enum ReleaseState {
    /// The page cache of the device is being cleared.
    Clearing { device: Device, virtual_size: u64 },
    /// The placeholder of its size is being looked up or built.
    Placeholder { device: Device, virtual_size: u64 },
    /// It is being bound to the placeholder, which has this many blocks.
    Swapping { device: Device, virtual_size: u64, sectors: u64 },
    /// It is being stopped.
    Stopping,
    Finished,
}

/// The model of a release state.
pub enum ReleaseStateView {
    Clearing { device: DeviceView, virtual_size: u64 },
    Placeholder { device: DeviceView, virtual_size: u64 },
    Swapping { device: DeviceView, virtual_size: u64, sectors: u64 },
    Stopping,
    Finished,
}

impl View for ReleaseState {
    type V = ReleaseStateView;

    open spec fn view(&self) -> ReleaseStateView {
        match *self {
            ReleaseState::Clearing { device, virtual_size } => ReleaseStateView::Clearing {
                device: device@,
                virtual_size,
            },
            ReleaseState::Placeholder { device, virtual_size } => ReleaseStateView::Placeholder {
                device: device@,
                virtual_size,
            },
            ReleaseState::Swapping { device, virtual_size, sectors } => ReleaseStateView::Swapping {
                device: device@,
                virtual_size,
                sectors,
            },
            ReleaseState::Stopping => ReleaseStateView::Stopping,
            ReleaseState::Finished => ReleaseStateView::Finished,
        }
    }
}

/// What happened in a release.
#[derive(Debug, Clone, Copy, PartialEq, Eq, Structural)]
pub enum ReleaseEvent {
    Succeeded,
    /// The placeholder is there, with this many blocks.
    PlaceholderFound { sectors: u64 },
    Failed,
}

/// What is done next in a release.
#[derive(Debug)]
pub enum ReleaseAction {
    ClearPageCache { device: Device },
    FindPlaceholder { virtual_size: u64 },
    /// The device is bound to the placeholder of this many bytes.
    SwapToPlaceholder { dev_id: u32, virtual_size: u64 },
    Stop { device: Device },
    /// The client is told that the device was released; a refill of the idle
    /// pool with devices of this many bytes is started where one is given.
    Reply { refill: Option<u64> },
    Fail(DaemonError),
}

/// The model of a release action.
pub enum ReleaseActionView {
    ClearPageCache { device: DeviceView },
    FindPlaceholder { virtual_size: u64 },
    SwapToPlaceholder { dev_id: u32, virtual_size: u64 },
    Stop { device: DeviceView },
    Reply { refill: Option<u64> },
    Fail(ErrorView),
}

impl View for ReleaseAction {
    type V = ReleaseActionView;

    open spec fn view(&self) -> ReleaseActionView {
        match *self {
            ReleaseAction::ClearPageCache { device } => ReleaseActionView::ClearPageCache {
                device: device@,
            },
            ReleaseAction::FindPlaceholder { virtual_size } => ReleaseActionView::FindPlaceholder {
                virtual_size,
            },
            ReleaseAction::SwapToPlaceholder { dev_id, virtual_size } =>
                ReleaseActionView::SwapToPlaceholder { dev_id, virtual_size },
            ReleaseAction::Stop { device } => ReleaseActionView::Stop { device: device@ },
            ReleaseAction::Reply { refill } => ReleaseActionView::Reply { refill },
            ReleaseAction::Fail(error) => ReleaseActionView::Fail(error@),
        }
    }
}

/// The pool, the state and the action at the beginning of a release.
pub open spec fn release_started(pool: PoolView, dev_id: u32) -> (
    PoolView,
    ReleaseStateView,
    ReleaseActionView,
) {
    let (after, plan) = release_begun(pool, dev_id);
    match plan {
        ReleaseView::Refused(error) => (
            after,
            ReleaseStateView::Finished,
            ReleaseActionView::Fail(error),
        ),
        ReleaseView::Kept => (
            after,
            ReleaseStateView::Finished,
            ReleaseActionView::Reply { refill: None },
        ),
        ReleaseView::Idle { device, virtual_size } => (
            after,
            ReleaseStateView::Clearing { device, virtual_size },
            ReleaseActionView::ClearPageCache { device },
        ),
    }
}

/// Whether `event` can happen in `state`.
pub open spec fn release_expects(state: ReleaseStateView, event: ReleaseEvent) -> bool {
    match state {
        ReleaseStateView::Clearing { .. } => event is Succeeded || event is Failed,
        ReleaseStateView::Placeholder { .. } => event is PlaceholderFound || event is Failed,
        ReleaseStateView::Swapping { .. } => event is Succeeded || event is Failed,
        ReleaseStateView::Stopping => event is Succeeded,
        ReleaseStateView::Finished => false,
    }
}

/// The pool, the state and the action of a release after `event` in `state`. A
/// page cache that could not be cleared is no obstacle. A device that cannot be
/// bound to a placeholder is stopped; it is never made idle with the image of
/// its last holder.
pub open spec fn release_next(pool: PoolView, state: ReleaseStateView, event: ReleaseEvent) -> (
    PoolView,
    ReleaseStateView,
    ReleaseActionView,
) {
    match state {
        ReleaseStateView::Clearing { device, virtual_size } => (
            pool,
            ReleaseStateView::Placeholder { device, virtual_size },
            ReleaseActionView::FindPlaceholder { virtual_size },
        ),
        ReleaseStateView::Placeholder { device, virtual_size } => match event {
            ReleaseEvent::PlaceholderFound { sectors } => (
                pool,
                ReleaseStateView::Swapping { device, virtual_size, sectors },
                ReleaseActionView::SwapToPlaceholder { dev_id: device.id, virtual_size },
            ),
            _ => (pool, ReleaseStateView::Stopping, ReleaseActionView::Stop { device }),
        },
        ReleaseStateView::Swapping { device, virtual_size, sectors } => if event is Succeeded {
            let (after, kept, refill) = returned(pool, device, sectors);
            if kept {
                (
                    after,
                    ReleaseStateView::Finished,
                    ReleaseActionView::Reply {
                        refill: if refill {
                            Some(virtual_size)
                        } else {
                            None
                        },
                    },
                )
            } else {
                (after, ReleaseStateView::Stopping, ReleaseActionView::Stop { device })
            }
        } else {
            (pool, ReleaseStateView::Stopping, ReleaseActionView::Stop { device })
        },
        _ => (pool, ReleaseStateView::Finished, ReleaseActionView::Reply { refill: None }),
    }
}

impl ReleaseState {
    /// Begins to release `dev_id`.
    pub fn begin(pool: &mut PoolState, dev_id: u32) -> (r: (ReleaseState, ReleaseAction))
        requires
            old(pool).inv(),
        ensures
            final(pool).inv(),
            (final(pool)@, r.0@, r.1@) == release_started(old(pool)@, dev_id),
    {
        match pool.begin_release(dev_id) {
            ReleasePlan::Refused(error) => (ReleaseState::Finished, ReleaseAction::Fail(error)),
            ReleasePlan::Kept => (ReleaseState::Finished, ReleaseAction::Reply { refill: None }),
            ReleasePlan::Idle { device, virtual_size } => {
                let shown: Device = device.clone();
                (
                    ReleaseState::Clearing { device, virtual_size },
                    ReleaseAction::ClearPageCache { device: shown },
                )
            },
        }
    }

    /// The state and the action after `event`.
    pub fn step(self, pool: &mut PoolState, event: ReleaseEvent) -> (r: (
        ReleaseState,
        ReleaseAction,
    ))
        requires
            old(pool).inv(),
            release_expects(self@, event),
        ensures
            final(pool).inv(),
            (final(pool)@, r.0@, r.1@) == release_next(old(pool)@, self@, event),
    {
        match self {
            ReleaseState::Clearing { device, virtual_size } => (
                ReleaseState::Placeholder { device, virtual_size },
                ReleaseAction::FindPlaceholder { virtual_size },
            ),
            ReleaseState::Placeholder { device, virtual_size } => match event {
                ReleaseEvent::PlaceholderFound { sectors } => {
                    let dev_id: u32 = device.id;
                    (
                        ReleaseState::Swapping { device, virtual_size, sectors },
                        ReleaseAction::SwapToPlaceholder { dev_id, virtual_size },
                    )
                },
                _ => (ReleaseState::Stopping, ReleaseAction::Stop { device }),
            },
            ReleaseState::Swapping { device, virtual_size, sectors } => match event {
                ReleaseEvent::Succeeded => match pool.return_idle(device, sectors) {
                    ReturnOutcome::Kept { refill } => {
                        let refill: Option<u64> = if refill {
                            Some(virtual_size)
                        } else {
                            None
                        };
                        (ReleaseState::Finished, ReleaseAction::Reply { refill })
                    },
                    ReturnOutcome::Stop(excess) => (
                        ReleaseState::Stopping,
                        ReleaseAction::Stop { device: excess },
                    ),
                },
                _ => (ReleaseState::Stopping, ReleaseAction::Stop { device }),
            },
            _ => (ReleaseState::Finished, ReleaseAction::Reply { refill: None }),
        }
    }
}

/// Where a refill of the idle pool stands.
#[derive(Debug, Clone, Copy, PartialEq, Eq, Structural)]
pub enum RefillState {
    /// The placeholder is being looked up or built, for this many devices.
    Placeholder { remaining: usize },
    /// A device that serves the placeholder, of this many blocks, is being made;
    /// it is one of this many.
    Creating { remaining: usize, sectors: u64 },
    /// A device that the pool has no room for is being stopped.
    Stopping,
    Finished,
}

/// What happened in a refill.
#[derive(Debug)]
pub enum RefillEvent {
    /// The placeholder is there, with this many blocks.
    PlaceholderFound { sectors: u64 },
    DeviceCreated(Device),
    Stopped,
    Failed(DaemonError),
}

/// The model of a refill event.
pub enum RefillEventView {
    PlaceholderFound { sectors: u64 },
    DeviceCreated(DeviceView),
    Stopped,
    Failed(ErrorView),
}

impl View for RefillEvent {
    type V = RefillEventView;

    open spec fn view(&self) -> RefillEventView {
        match *self {
            RefillEvent::PlaceholderFound { sectors } => RefillEventView::PlaceholderFound {
                sectors,
            },
            RefillEvent::DeviceCreated(device) => RefillEventView::DeviceCreated(device@),
            RefillEvent::Stopped => RefillEventView::Stopped,
            RefillEvent::Failed(error) => RefillEventView::Failed(error@),
        }
    }
}

/// What is done next in a refill.
#[derive(Debug)]
pub enum RefillAction {
    FindPlaceholder,
    CreateDevice,
    Stop { device: Device },
    /// The refill is over, with this error where it has one; the next one is
    /// begun at once where `again` says so.
    End { error: Option<DaemonError>, again: bool },
}

/// The model of a refill action.
pub enum RefillActionView {
    FindPlaceholder,
    CreateDevice,
    Stop { device: DeviceView },
    End { error: Option<ErrorView>, again: bool },
}

impl View for RefillAction {
    type V = RefillActionView;

    open spec fn view(&self) -> RefillActionView {
        match *self {
            RefillAction::FindPlaceholder => RefillActionView::FindPlaceholder,
            RefillAction::CreateDevice => RefillActionView::CreateDevice,
            RefillAction::Stop { device } => RefillActionView::Stop { device: device@ },
            RefillAction::End { error, again } => RefillActionView::End {
                error: match error {
                    Some(error) => Some(error@),
                    None => None,
                },
                again,
            },
        }
    }
}

/// The end of a refill.
pub open spec fn refill_over(pool: PoolView, error: Option<ErrorView>) -> (
    PoolView,
    RefillState,
    RefillActionView,
) {
    let (after, again) = refill_ended(pool);
    (after, RefillState::Finished, RefillActionView::End { error, again })
}

/// The beginning of a refill: nothing is done where no device is missing.
pub open spec fn refill_started(pool: PoolView) -> (PoolView, RefillState, RefillActionView) {
    let count = missing(pool.idle.len(), pool.config);
    if count == 0 {
        refill_over(pool, None)
    } else {
        (
            pool,
            RefillState::Placeholder { remaining: count as usize },
            RefillActionView::FindPlaceholder,
        )
    }
}

/// Whether `event` can happen in `state`.
pub open spec fn refill_expects(state: RefillState, event: RefillEventView) -> bool {
    match state {
        RefillState::Placeholder { .. } => event is PlaceholderFound || event is Failed,
        RefillState::Creating { remaining, .. } => remaining > 0 && (event is DeviceCreated
            || event is Failed),
        RefillState::Stopping => event is Stopped,
        RefillState::Finished => false,
    }
}

/// The pool, the state and the action of a refill after `event` in `state`. A
/// failure ends it, and so does a device that the pool has no room for.
pub open spec fn refill_next(pool: PoolView, state: RefillState, event: RefillEventView) -> (
    PoolView,
    RefillState,
    RefillActionView,
) {
    match event {
        RefillEventView::Failed(error) => refill_over(
            pool,
            Some(
                in_context(
                    if state is Placeholder {
                        "build pool placeholder for prewarm"@
                    } else {
                        "prewarm overlaybd pool device"@
                    },
                    error,
                ),
            ),
        ),
        RefillEventView::PlaceholderFound { sectors } => match state {
            RefillState::Placeholder { remaining } => (
                pool,
                RefillState::Creating { remaining, sectors },
                RefillActionView::CreateDevice,
            ),
            _ => refill_over(pool, None),
        },
        RefillEventView::DeviceCreated(device) => match state {
            RefillState::Creating { remaining, sectors } => {
                let (after, kept) = prewarmed(pool, device, sectors);
                if !kept {
                    (after, RefillState::Stopping, RefillActionView::Stop { device })
                } else if remaining > 1 {
                    (
                        after,
                        RefillState::Creating { remaining: (remaining - 1) as usize, sectors },
                        RefillActionView::CreateDevice,
                    )
                } else {
                    refill_over(after, None)
                }
            },
            _ => refill_over(pool, None),
        },
        RefillEventView::Stopped => refill_over(pool, None),
    }
}

impl RefillState {
    fn over(pool: &mut PoolState, error: Option<DaemonError>) -> (r: (RefillState, RefillAction))
        requires
            old(pool).inv(),
        ensures
            final(pool).inv(),
            (final(pool)@, r.0, r.1@) == refill_over(
                old(pool)@,
                match error {
                    Some(error) => Some(error@),
                    None => None,
                },
            ),
    {
        let again: bool = pool.end_refill();
        (RefillState::Finished, RefillAction::End { error, again })
    }

    /// Begins the refill that was asked for.
    pub fn begin(pool: &mut PoolState) -> (r: (RefillState, RefillAction))
        requires
            old(pool).inv(),
        ensures
            final(pool).inv(),
            (final(pool)@, r.0, r.1@) == refill_started(old(pool)@),
    {
        let remaining: usize = pool.refill_count();
        if remaining == 0 {
            RefillState::over(pool, None)
        } else {
            (RefillState::Placeholder { remaining }, RefillAction::FindPlaceholder)
        }
    }

    /// The state and the action after `event`.
    pub fn step(self, pool: &mut PoolState, event: RefillEvent) -> (r: (RefillState, RefillAction))
        requires
            old(pool).inv(),
            refill_expects(self, event@),
        ensures
            final(pool).inv(),
            (final(pool)@, r.0, r.1@) == refill_next(old(pool)@, self, event@),
    {
        match event {
            RefillEvent::Failed(error) => {
                let context: &str = match self {
                    RefillState::Placeholder { .. } => "build pool placeholder for prewarm",
                    _ => "prewarm overlaybd pool device",
                };
                RefillState::over(pool, Some(error.context(context)))
            },
            RefillEvent::PlaceholderFound { sectors } => match self {
                RefillState::Placeholder { remaining } => (
                    RefillState::Creating { remaining, sectors },
                    RefillAction::CreateDevice,
                ),
                _ => RefillState::over(pool, None),
            },
            RefillEvent::DeviceCreated(device) => match self {
                RefillState::Creating { remaining, sectors } => match pool.add_prewarmed(
                    device,
                    sectors,
                ) {
                    Some(excess) => (RefillState::Stopping, RefillAction::Stop { device: excess }),
                    None => if remaining > 1 {
                        (
                            RefillState::Creating { remaining: remaining - 1, sectors },
                            RefillAction::CreateDevice,
                        )
                    } else {
                        RefillState::over(pool, None)
                    },
                },
                _ => RefillState::over(pool, None),
            },
            RefillEvent::Stopped => RefillState::over(pool, None),
        }
    }
}

} // verus!
