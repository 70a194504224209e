//! What holds of every step of a task on the pool.
use crate::daemon::error::ErrorView;
use crate::daemon::handlers::{acquire_context, AcquireStage};
use crate::daemon::pool::{
    acquire_begun, acquire_finished, consistent, holding, joinable, knows, prewarmed, refill_ended,
    release_begun, returned, PlanView, PoolView, ReleaseView, RequestView,
};
use crate::daemon::pool_laws::{
    law_begin_acquire_consistent, law_begin_release_consistent, law_finish_acquire_consistent,
    law_idle_consistent, law_refill_consistent,
};
use crate::daemon::tables::{DeviceView, ImageInfo};
use crate::daemon::tasks::{
    acquire_expects, acquire_next, acquire_settled, refill_expects, refill_next, refill_started,
    release_expects, release_next, release_started, AcquireActionView, AcquireEventView,
    AcquireStateView, RefillActionView, RefillEventView, RefillState, ReleaseActionView,
    ReleaseEvent, ReleaseStateView,
};
use crate::daemon::warm_pool::{missing, PooledView};
use vstd::prelude::*;

verus! {

/// How many events a refill can still take.
pub open spec fn refill_rank(state: RefillState) -> nat {
    match state {
        RefillState::Placeholder { remaining } => (remaining + 2) as nat,
        RefillState::Creating { remaining, .. } => (remaining + 1) as nat,
        RefillState::Stopping => 1,
        RefillState::Finished => 0,
    }
}

/// A refill ends, whatever happens in it, and no refill is under way after its
/// end unless the next one is begun at once.
pub proof fn law_refill_ends(pool: PoolView, state: RefillState, event: RefillEventView)
    requires
        refill_expects(state, event),
    ensures
        refill_rank(refill_next(pool, state, event).1) < refill_rank(state),
        refill_next(pool, state, event).2 matches RefillActionView::End { again, .. } ==> again
            == refill_next(pool, state, event).0.refill_inflight,
{
}

/// A client that gets a device holds it: whatever step of an acquire ends in a
/// reply with a device that was bound to the image, the device is held
/// afterwards.
pub proof fn law_acquired_device_is_held(
    pool: PoolView,
    request: RequestView,
    image: ImageInfo,
    device: DeviceView,
)
    requires
        consistent(pool),
        joinable(pool, request),
    ensures
        ({
            let (after, state, action) = acquire_settled(pool, request, image, device);
            &&& (action matches AcquireActionView::Reply { device: given, .. } ==> given == device
                && holding(after, device.id) is Some)
            &&& (action matches AcquireActionView::Stop { device: excess } ==> excess == device && (
            state matches AcquireStateView::Stopping { device: given } && holding(
                after,
                given.id,
            ) is Some))
        }),
        acquire_begun(pool, request, image).1 matches PlanView::Joined(given) ==> holding(
            acquire_begun(pool, request, image).0,
            given.id,
        ) is Some,
{
    let key = request.key();
    if pool.shared.contains_key(key) {
        let existing = pool.shared[key].device;
        assert(pool.index.contains_key(existing.id));
        assert(pool.index[existing.id] == key);
    }
}

/// An idle device never serves the image of a former holder: the pool changes
/// in a release only when the device was bound to its placeholder, and then the
/// device is idle with the size of that placeholder; in every other case the
/// device is stopped.
pub proof fn law_idle_serves_placeholder(
    pool: PoolView,
    state: ReleaseStateView,
    event: ReleaseEvent,
)
    requires
        release_expects(state, event),
    ensures
        release_next(pool, state, event).0.idle != pool.idle ==> (state
            matches ReleaseStateView::Swapping { device, sectors, .. } && event is Succeeded
            && release_next(pool, state, event).0.idle == pool.idle.push(
            PooledView { device, sectors },
        )),
        event is Failed && !(state is Clearing) ==> release_next(pool, state, event).1
            is Stopping,
{
}

/// The device that an acquire has in hand, if it has one.
pub open spec fn acquire_device(state: AcquireStateView) -> Option<u32> {
    match state {
        AcquireStateView::Swapping { pooled, .. } => Some(pooled.device.id),
        AcquireStateView::Resizing { device, .. } => Some(device.id),
        _ => None,
    }
}

/// Whatever happens in an acquire, every device has one place: either in the
/// pool or in the hands of the acquire, as long as a new device gets a number
/// that is not in use.
pub proof fn law_acquire_step_consistent(
    pool: PoolView,
    request: RequestView,
    state: AcquireStateView,
    event: AcquireEventView,
)
    requires
        consistent(pool),
        acquire_expects(state, event),
        event is Failed || joinable(pool, request),
        acquire_device(state) matches Some(id) ==> !knows(pool, id),
        event matches AcquireEventView::DeviceCreated(device) ==> !knows(pool, device.id),
    ensures
        consistent(acquire_next(pool, request, state, event).0),
        acquire_device(acquire_next(pool, request, state, event).1) matches Some(id) ==> !knows(
            acquire_next(pool, request, state, event).0,
            id,
        ),
{
    match event {
        AcquireEventView::ImageOpened(image) => {
            law_begin_acquire_consistent(pool, request, image);
        },
        AcquireEventView::DeviceCreated(device) => {
            if let AcquireStateView::Creating { image } = state {
                law_finish_acquire_consistent(pool, request, image, device);
            }
        },
        AcquireEventView::Succeeded => {
            if let AcquireStateView::Swapping { pooled, image, .. } = state {
                law_finish_acquire_consistent(pool, request, image, pooled.device);
            }
            if let AcquireStateView::Resizing { device, image } = state {
                law_finish_acquire_consistent(pool, request, image, device);
            }
        },
        AcquireEventView::Failed(_) => {},
    }
}

/// The device that a release has in hand, if it has one.
pub open spec fn release_device(state: ReleaseStateView) -> Option<u32> {
    match state {
        ReleaseStateView::Clearing { device, .. } => Some(device.id),
        ReleaseStateView::Placeholder { device, .. } => Some(device.id),
        ReleaseStateView::Swapping { device, .. } => Some(device.id),
        _ => None,
    }
}

/// At the beginning of a release the device leaves the pool for the hands of
/// the release, and every other device stays where it is.
pub proof fn law_release_start_consistent(pool: PoolView, dev_id: u32)
    requires
        consistent(pool),
    ensures
        consistent(release_started(pool, dev_id).0),
        release_device(release_started(pool, dev_id).1) matches Some(id) ==> id == dev_id
            && !knows(release_started(pool, dev_id).0, id),
{
    law_begin_release_consistent(pool, dev_id);
}

/// Whatever happens in a release, every device has one place: either in the
/// pool or in the hands of the release.
pub proof fn law_release_step_consistent(
    pool: PoolView,
    state: ReleaseStateView,
    event: ReleaseEvent,
)
    requires
        consistent(pool),
        release_expects(state, event),
        release_device(state) matches Some(id) ==> !knows(pool, id),
    ensures
        consistent(release_next(pool, state, event).0),
        release_device(release_next(pool, state, event).1) matches Some(id) ==> !knows(
            release_next(pool, state, event).0,
            id,
        ),
{
    if let ReleaseStateView::Swapping { device, sectors, .. } = state {
        law_idle_consistent(pool, device, sectors);
    }
}

/// Whatever happens in a refill, every device has one place, as long as a new
/// device gets a number that is not in use.
pub proof fn law_refill_step_consistent(
    pool: PoolView,
    state: RefillState,
    event: RefillEventView,
)
    requires
        consistent(pool),
        refill_expects(state, event),
        event matches RefillEventView::DeviceCreated(device) ==> !knows(pool, device.id),
    ensures
        consistent(refill_next(pool, state, event).0),
{
    law_refill_consistent(pool);
    if let RefillEventView::DeviceCreated(device) = event {
        if let RefillState::Creating { sectors, .. } = state {
            law_idle_consistent(pool, device, sectors);
            law_refill_consistent(prewarmed(pool, device, sectors).0);
        }
    }
}

/// How an acquire goes on. A failure ends it, changes nothing in the pool and
/// keeps the class of the error. After the lookup of the service the image is
/// opened. A request of another size than the image is refused; one that joins a
/// device gets it at once; else an idle device is bound to the image, or a new one
/// is made, with discards exactly where the image can be written. A device that
/// was bound changes its size to that of the image where that was planned. Then
/// it is recorded, and the client gets what the record says, after a superfluous
/// device was stopped.
pub proof fn law_acquire_steps(
    pool: PoolView,
    request: RequestView,
    state: AcquireStateView,
    event: AcquireEventView,
)
    requires
        acquire_expects(state, event),
    ensures
        ({
            let (after, next, action) = acquire_next(pool, request, state, event);
            &&& event matches AcquireEventView::Failed(error) ==> after == pool && next is Finished
                && (action matches AcquireActionView::Fail(told) && told.class == error.class)
            &&& state is Service && event is Succeeded ==> after == pool && next is Opening
                && action is OpenImage
            &&& event matches AcquireEventView::ImageOpened(image) ==> {
                let (planned, plan) = acquire_begun(pool, request, image);
                &&& after == planned
                &&& action is Fail <==> request.virtual_size != image.size_bytes
                &&& plan matches PlanView::Joined(device) ==> next is Finished && action == (
                AcquireActionView::Reply { device, refill: None })
                &&& plan matches PlanView::Reuse { pooled, resize } ==> next == (
                AcquireStateView::Swapping { pooled, resize, image }) && action == (
                AcquireActionView::Swap {
                    dev_id: pooled.device.id,
                    discard: !image.read_only,
                })
                &&& plan is Create ==> next == (AcquireStateView::Creating { image }) && action == (
                AcquireActionView::CreateDevice { discard: !image.read_only })
            }
            &&& state matches AcquireStateView::Swapping { pooled, resize, image } ==> (event
                is Succeeded && resize ==> after == pool && next == (AcquireStateView::Resizing {
                device: pooled.device,
                image,
            }) && action == (AcquireActionView::Resize {
                dev_id: pooled.device.id,
                sectors: image.sectors,
            }))
            &&& state matches AcquireStateView::Swapping { pooled, resize, image } ==> (event
                is Succeeded && !resize ==> settled_as(
                pool,
                request,
                image,
                pooled.device,
                after,
                next,
                action,
            ))
            &&& state matches AcquireStateView::Resizing { device, image } ==> (event is Succeeded
                ==> settled_as(pool, request, image, device, after, next, action))
            &&& state matches AcquireStateView::Creating { image } ==> (event
                matches AcquireEventView::DeviceCreated(device) ==> settled_as(
                pool,
                request,
                image,
                device,
                after,
                next,
                action,
            ))
            &&& state matches AcquireStateView::Stopping { device } ==> after == pool && next
                is Finished && action == (AcquireActionView::Reply { device, refill: None })
        }),
{
}

/// `device` was recorded for `request`: the client gets the device of the record,
/// with a refill of the size of the image where one is started, or first the
/// superfluous device is stopped.
pub open spec fn settled_as(
    pool: PoolView,
    request: RequestView,
    image: ImageInfo,
    device: DeviceView,
    after: PoolView,
    next: AcquireStateView,
    action: AcquireActionView,
) -> bool {
    let (recorded, outcome) = acquire_finished(pool, request, image, device);
    &&& after == recorded
    &&& outcome.stop matches Some(excess) ==> action == (AcquireActionView::Stop {
        device: excess,
    }) && next == (AcquireStateView::Stopping { device: outcome.device })
    &&& outcome.stop is None ==> next is Finished && (action
        matches AcquireActionView::Reply { device: given, refill } && given == outcome.device && (
    outcome.refill ==> refill == Some(image.size_bytes)) && (!outcome.refill ==> refill is None))
}

/// How a release goes on. The page cache of a device that lost its last holder is
/// cleared, with success or without; then the placeholder of the size of its image
/// is found, the device is bound to that placeholder, and it becomes idle with the
/// size of the placeholder, where there is room. Where any of that fails the
/// device is stopped, and the client is told that it was released.
pub proof fn law_release_steps(pool: PoolView, dev_id: u32, state: ReleaseStateView, event: ReleaseEvent)
    ensures
        ({
            let (after, next, action) = release_started(pool, dev_id);
            let (begun, plan) = release_begun(pool, dev_id);
            &&& after == begun
            &&& plan matches ReleaseView::Idle { device, virtual_size } ==> next == (
            ReleaseStateView::Clearing { device, virtual_size }) && action == (
            ReleaseActionView::ClearPageCache { device })
            &&& plan is Kept ==> next is Finished && action == (ReleaseActionView::Reply {
                refill: None,
            })
            &&& plan matches ReleaseView::Refused(error) ==> next is Finished && action
                == ReleaseActionView::Fail(error)
        }),
        release_expects(state, event) ==> {
            let (after, next, action) = release_next(pool, state, event);
            &&& state matches ReleaseStateView::Clearing { device, virtual_size } ==> after == pool
                && next == (ReleaseStateView::Placeholder { device, virtual_size }) && action == (
            ReleaseActionView::FindPlaceholder { virtual_size })
            &&& state matches ReleaseStateView::Placeholder { device, virtual_size } ==> after
                == pool && (event is Failed ==> next is Stopping && action == (
            ReleaseActionView::Stop { device })) && (event
                matches ReleaseEvent::PlaceholderFound { sectors } ==> next == (
            ReleaseStateView::Swapping { device, virtual_size, sectors }) && action == (
            ReleaseActionView::SwapToPlaceholder { dev_id: device.id, virtual_size }))
            &&& state matches ReleaseStateView::Swapping { device, virtual_size, sectors } ==> {
                let (kept_pool, kept, refill) = returned(pool, device, sectors);
                &&& event is Failed ==> after == pool && next is Stopping && action == (
                ReleaseActionView::Stop { device })
                &&& event is Succeeded ==> after == kept_pool
                &&& event is Succeeded && !kept ==> next is Stopping && action == (
                ReleaseActionView::Stop { device })
                &&& event is Succeeded && kept ==> next is Finished && (action
                    matches ReleaseActionView::Reply { refill: wanted } && (refill ==> wanted
                    == Some(virtual_size)) && (!refill ==> wanted is None))
            }
            &&& state is Stopping ==> after == pool && next is Finished && action == (
            ReleaseActionView::Reply { refill: None })
        },
{
}

/// How a refill goes on. It begins only where devices are missing, finds their
/// placeholder once, and then makes them one by one; each is added to the idle
/// ones with the size of the placeholder. It ends when all are made, when
/// something fails, or when the pool has no room, and then the device that was
/// made last is stopped first.
pub proof fn law_refill_steps(pool: PoolView, state: RefillState, event: RefillEventView)
    ensures
        ({
            let (after, next, action) = refill_started(pool);
            let count = missing(pool.idle.len(), pool.config);
            &&& count > 0 ==> after == pool && action is FindPlaceholder && (next
                matches RefillState::Placeholder { remaining } && remaining == count)
            &&& count == 0 ==> next is Finished && after == refill_ended(pool).0 && action == (
            RefillActionView::End { error: None, again: refill_ended(pool).1 })
        }),
        refill_expects(state, event) ==> {
            let (after, next, action) = refill_next(pool, state, event);
            &&& state matches RefillState::Placeholder { remaining } ==> (event
                matches RefillEventView::PlaceholderFound { sectors } ==> after == pool && next == (
            RefillState::Creating { remaining, sectors }) && action is CreateDevice)
            &&& state matches RefillState::Creating { remaining, sectors } ==> (event
                matches RefillEventView::DeviceCreated(device) ==> {
                let (grown, kept) = prewarmed(pool, device, sectors);
                &&& !kept ==> after == pool && next is Stopping && action == (
                RefillActionView::Stop { device })
                &&& kept && remaining > 1 ==> after == grown && action is CreateDevice && next == (
                RefillState::Creating { remaining: (remaining - 1) as usize, sectors })
                &&& kept && remaining == 1 ==> next is Finished && after == refill_ended(grown).0
                    && action == (RefillActionView::End {
                    error: None,
                    again: refill_ended(grown).1,
                })
            })
            &&& event matches RefillEventView::Failed(cause) ==> next is Finished && after
                == refill_ended(pool).0 && (action matches RefillActionView::End { error, again }
                && again == refill_ended(pool).1 && (error matches Some(told) && told.class
                == cause.class))
            &&& state is Stopping ==> next is Finished && after == refill_ended(pool).0 && action
                == (RefillActionView::End { error: None, again: refill_ended(pool).1 })
        },
{
}

/// What a client is told of an acquire that fails: the step that failed, and why.
pub proof fn law_acquire_failures(
    pool: PoolView,
    request: RequestView,
    state: AcquireStateView,
    error: ErrorView,
)
    requires
        acquire_expects(state, AcquireEventView::Failed(error)),
    ensures
        ({
            let told = acquire_next(
                pool,
                request,
                state,
                AcquireEventView::Failed(error),
            ).2->Fail_0.message;
            let mode = request.access_mode;
            let config = request.image_config;
            &&& state is Service ==> told == acquire_context(AcquireStage::Service, mode, config)
                + ": "@ + error.message
            &&& state is Opening ==> told == acquire_context(AcquireStage::Open, mode, config)
                + ": "@ + error.message
            &&& state is Swapping ==> told == acquire_context(AcquireStage::Swap, mode, config)
                + ": "@ + error.message
            &&& state matches AcquireStateView::Resizing { device, .. } ==> told
                == acquire_context(AcquireStage::Resize { dev_id: device.id }, mode, config) + ": "@
                + error.message
            &&& state is Creating ==> told == acquire_context(AcquireStage::Create, mode, config)
                + ": "@ + error.message
        }),
{
}

/// What is said of a refill that fails: whether the placeholder or a device could
/// not be made, and why.
pub proof fn law_refill_failures(pool: PoolView, state: RefillState, cause: ErrorView)
    requires
        refill_expects(state, RefillEventView::Failed(cause)),
    ensures
        ({
            let action = refill_next(pool, state, RefillEventView::Failed(cause)).2;
            &&& state is Placeholder ==> (action matches RefillActionView::End { error, .. }
                && error matches Some(told) && told.message
                == "build pool placeholder for prewarm"@ + ": "@ + cause.message)
            &&& state is Creating ==> (action matches RefillActionView::End { error, .. } && error
                matches Some(told) && told.message == "prewarm overlaybd pool device"@ + ": "@
                + cause.message)
        }),
{
}

} // verus!
