//! What holds of the pool over several operations.
use crate::daemon::pool::{
    Holding, PlanView, PoolView, ReleaseView, RequestView, acquire_begun, acquire_finished,
    can_resize, consistent, found_by_image, held_image_config, holding, joinable, joined_by, knows,
    lists_shared, not_active_text, prewarmed, refill_asked, refill_ended, refill_if_prewarm,
    release_begun, resize_target, returned, wanted_fit,
};
use crate::daemon::error::plain_error;
use crate::daemon::protocol::AccessMode;
use crate::daemon::tables::{
    DeviceView, ImageInfo, KeyView, RecordView, SharedView, TargetView, lists_records,
};
use crate::daemon::warm_pool::{Fit, PooledView, first_fit, fits, lemma_first_fit_bound, missing};
use crate::fs_path::components;
use crate::path_laws::law_canonical_spelling;
use vstd::prelude::*;

verus! {

/// Planning an acquire keeps every device in one place, and an idle device
/// that it takes belongs to the pool no more.
pub proof fn law_begin_acquire_consistent(pool: PoolView, request: RequestView, image: ImageInfo)
    requires
        consistent(pool),
        joinable(pool, request),
    ensures
        consistent(acquire_begun(pool, request, image).0),
        acquire_begun(pool, request, image).1 matches PlanView::Reuse { pooled, .. } ==> !knows(
            acquire_begun(pool, request, image).0,
            pooled.device.id,
        ),
{
    let after = acquire_begun(pool, request, image).0;
    let fit = wanted_fit(pool.features, image.sectors);
    let at = first_fit(pool.idle, fit) as int;
    lemma_first_fit_bound(pool.idle, fit);
    if acquire_begun(pool, request, image).1 is Reuse {
        assert(after.idle == pool.idle.remove(at));
        assert forall|i: int| 0 <= i < after.idle.len() implies #[trigger] after.idle[i]
            == pool.idle[if i < at {
            i
        } else {
            i + 1
        }] by {}
        assert(pool.idle[at] == pool.idle[at]);
    }
}

/// Recording the device of an acquire keeps every device in one place, as long
/// as the number of the device is not in use.
pub proof fn law_finish_acquire_consistent(
    pool: PoolView,
    request: RequestView,
    image: ImageInfo,
    device: DeviceView,
)
    requires
        consistent(pool),
        !knows(pool, device.id),
        joinable(pool, request),
    ensures
        consistent(acquire_finished(pool, request, image, device).0),
{
    let after = acquire_finished(pool, request, image, device).0;
    assert forall|i: int| 0 <= i < pool.idle.len() implies (#[trigger] pool.idle[i]).device.id
        != device.id by {}
    if request.access_mode == AccessMode::Exclusive {
        assert forall|id: u32| #[trigger] after.exclusive.contains_key(id) implies id == device.id
            || pool.exclusive.contains_key(id) by {}
        assert(consistent(after));
    } else if !pool.shared.contains_key(request.key()) {
        assert forall|id: u32| #[trigger] after.index.contains_key(id) implies id == device.id
            || pool.index.contains_key(id) by {}
        assert forall|key: KeyView| #[trigger] after.shared.contains_key(key) implies key
            == request.key() || pool.shared.contains_key(key) by {}
        assert(consistent(after));
    } else {
        assert(consistent(after));
    }
}

/// A release keeps every device in one place; a device that is to become idle
/// belongs to the pool no more until it is returned.
pub proof fn law_begin_release_consistent(pool: PoolView, dev_id: u32)
    requires
        consistent(pool),
    ensures
        consistent(release_begun(pool, dev_id).0),
        release_begun(pool, dev_id).1 matches ReleaseView::Idle { device, .. } ==> device.id
            == dev_id && !knows(release_begun(pool, dev_id).0, dev_id),
{
    let after = release_begun(pool, dev_id).0;
    if pool.exclusive.contains_key(dev_id) {
        assert(consistent(after));
        assert(!knows(after, dev_id));
    } else if pool.index.contains_key(dev_id) {
        let key = pool.index[dev_id];
        assert(pool.shared.contains_key(key));
        assert(consistent(after));
    }
}

/// Returning a device and adding one made ahead of time keep every device in
/// one place and the pool within its high watermark.
pub proof fn law_idle_consistent(pool: PoolView, device: DeviceView, sectors: u64)
    requires
        consistent(pool),
        !knows(pool, device.id),
    ensures
        consistent(returned(pool, device, sectors).0),
        consistent(prewarmed(pool, device, sectors).0),
{
    assert forall|i: int| 0 <= i < pool.idle.len() implies (#[trigger] pool.idle[i]).device.id
        != device.id by {}
}

/// Asking for a refill and ending one keep every device in its place.
pub proof fn law_refill_consistent(pool: PoolView)
    requires
        consistent(pool),
    ensures
        consistent(refill_asked(pool).0),
        consistent(refill_if_prewarm(pool).0),
        consistent(refill_ended(pool).0),
{
}

/// While a refill is under way no other is started, and it starts again at its
/// end exactly as long as devices are missing.
pub proof fn law_one_refill(pool: PoolView)
    ensures
        pool.refill_inflight ==> !refill_asked(pool).1,
        refill_asked(pool).1 ==> !refill_asked(refill_asked(pool).0).1,
        refill_ended(pool).1 <==> missing(pool.idle.len(), pool.config) > 0,
        refill_ended(pool).0.refill_inflight == refill_ended(pool).1,
{
}

/// A shared device that one more holder joined and that is released again is
/// as it was.
pub proof fn law_join_release(pool: PoolView, request: RequestView, image: ImageInfo)
    requires
        consistent(pool),
        request.access_mode == AccessMode::Shared,
        request.virtual_size == image.size_bytes,
        pool.shared.contains_key(request.key()),
        joinable(pool, request),
    ensures
        acquire_begun(pool, request, image).1 == PlanView::Joined(
            pool.shared[request.key()].device,
        ),
        release_begun(
            acquire_begun(pool, request, image).0,
            pool.shared[request.key()].device.id,
        ) == (pool, ReleaseView::Kept),
{
    let key = request.key();
    let id = pool.shared[key].device.id;
    let after = joined_by(pool, key);
    assert(pool.index.contains_key(id) && pool.index[id] == key);
    assert(!pool.exclusive.contains_key(id));
    assert(release_begun(after, id).0.shared =~= pool.shared);
    assert(release_begun(after, id).0 =~= pool);
}

/// The pool after `n` releases of `dev_id`.
pub open spec fn released_times(pool: PoolView, dev_id: u32, n: nat) -> PoolView
    decreases n,
{
    if n == 0 {
        pool
    } else {
        release_begun(released_times(pool, dev_id, (n - 1) as nat), dev_id).0
    }
}

/// A shared device with `r` holders is held through the first `r - 1` releases
/// and free after the last.
pub proof fn law_release_counts(pool: PoolView, dev_id: u32, n: nat)
    requires
        consistent(pool),
        holding(pool, dev_id) == Some(Holding::Shared),
        n <= pool.shared[pool.index[dev_id]].refcount,
    ensures
        n < pool.shared[pool.index[dev_id]].refcount ==> {
            let after = released_times(pool, dev_id, n);
            &&& holding(after, dev_id) == Some(Holding::Shared)
            &&& after.index[dev_id] == pool.index[dev_id]
            &&& after.shared[pool.index[dev_id]].refcount
                == pool.shared[pool.index[dev_id]].refcount - n
            &&& after.shared[pool.index[dev_id]].device == pool.shared[pool.index[dev_id]].device
        },
        n == pool.shared[pool.index[dev_id]].refcount ==> holding(
            released_times(pool, dev_id, n),
            dev_id,
        ) is None,
        consistent(released_times(pool, dev_id, n)),
    decreases n,
{
    if n > 0 {
        law_release_counts(pool, dev_id, (n - 1) as nat);
        law_begin_release_consistent(released_times(pool, dev_id, (n - 1) as nat), dev_id);
    }
}

/// The release of a device that nobody holds is refused and changes nothing.
pub proof fn law_unknown_release(pool: PoolView, dev_id: u32)
    requires
        holding(pool, dev_id) is None,
    ensures
        release_begun(pool, dev_id) == (
            pool,
            ReleaseView::Refused(plain_error(not_active_text(dev_id))),
        ),
{
}

/// An acquire that is refused changes nothing.
pub proof fn law_refused_acquire(pool: PoolView, request: RequestView, image: ImageInfo)
    ensures
        acquire_begun(pool, request, image).1 is Refused <==> request.virtual_size
            != image.size_bytes,
        acquire_begun(pool, request, image).1 is Refused ==> acquire_begun(
            pool,
            request,
            image,
        ).0 == pool,
{
}

/// A reused device serves the right number of blocks: it either has them
/// already, or it can be resized and is. Where devices cannot change their
/// size, no resize is ever asked for.
pub proof fn law_reused_size(pool: PoolView, request: RequestView, image: ImageInfo)
    ensures
        acquire_begun(pool, request, image).1 matches PlanView::Reuse { pooled, resize } ==> {
            &&& resize <==> pooled.sectors != image.sectors
            &&& resize ==> can_resize(pool.features)
        },
{
    lemma_first_fit_bound(
        pool.idle,
        wanted_fit(pool.features, image.sectors),
    );
}

/// A device that was acquired for one holder and released again is to become
/// idle at the size of its image; nobody holds it, and the other devices are
/// where they were.
pub proof fn law_exclusive_round_trip(
    pool: PoolView,
    request: RequestView,
    image: ImageInfo,
    device: DeviceView,
)
    requires
        consistent(pool),
        !knows(pool, device.id),
        request.access_mode == AccessMode::Exclusive,
    ensures
        release_begun(acquire_finished(pool, request, image, device).0, device.id).1 == (
        ReleaseView::Idle { device, virtual_size: image.size_bytes }),
        release_begun(acquire_finished(pool, request, image, device).0, device.id).0 == (PoolView {
            refill_inflight: acquire_finished(pool, request, image, device).0.refill_inflight,
            ..pool
        }),
{
    let after = release_begun(acquire_finished(pool, request, image, device).0, device.id).0;
    assert(after.exclusive =~= pool.exclusive);
}

/// The pool after the devices `added`, each of `sectors` blocks, were made
/// ahead of time.
pub open spec fn prewarmed_all(pool: PoolView, added: Seq<DeviceView>, sectors: u64) -> PoolView
    decreases added.len(),
{
    if added.len() == 0 {
        pool
    } else {
        prewarmed(prewarmed_all(pool, added.drop_last(), sectors), added.last(), sectors).0
    }
}

/// Filling in the missing devices brings the pool exactly to its low
/// watermark.
pub proof fn law_refill_reaches_low_watermark(pool: PoolView, added: Seq<DeviceView>, sectors: u64)
    requires
        pool.config.low_watermark <= pool.config.high_watermark,
        pool.idle.len() <= pool.config.low_watermark,
        added.len() == missing(pool.idle.len(), pool.config),
    ensures
        prewarmed_all(pool, added, sectors).idle.len() == pool.config.low_watermark,
        !refill_ended(prewarmed_all(pool, added, sectors)).1,
{
    lemma_prewarmed_all(pool, added, sectors);
}

proof fn lemma_prewarmed_all(pool: PoolView, added: Seq<DeviceView>, sectors: u64)
    requires
        pool.idle.len() + added.len() <= pool.config.high_watermark,
    ensures
        prewarmed_all(pool, added, sectors).idle.len() == pool.idle.len() + added.len(),
        prewarmed_all(pool, added, sectors).config == pool.config,
    decreases added.len(),
{
    if added.len() > 0 {
        lemma_prewarmed_all(pool, added.drop_last(), sectors);
    }
}

/// Two requests ask for one shared device exactly when they name the same image
/// configuration and the same global configuration, however these are spelled.
pub proof fn law_shared_keys(a: RequestView, b: RequestView)
    ensures
        a.key() == b.key() <==> components(a.image_config) == components(b.image_config)
            && components(a.global_config) == components(b.global_config),
        components(a.key().0) == components(a.image_config),
        components(a.key().1) == components(a.global_config),
{
    law_canonical_spelling(a.image_config, b.image_config);
    law_canonical_spelling(a.global_config, b.global_config);
}

/// A request joins an active device exactly when it is for a shared one of the
/// right size and that device was acquired for the same image configuration and
/// the same global configuration; the image configuration recorded with the
/// device is the one that was asked for.
pub proof fn law_joined_device_serves_the_image(
    pool: PoolView,
    request: RequestView,
    first: RequestView,
    image: ImageInfo,
)
    requires
        found_by_image(pool),
        request.virtual_size == image.size_bytes,
    ensures
        acquire_begun(pool, request, image).1 matches PlanView::Joined(device) ==> exists|
            key: KeyView,
        |
            {
                &&& #[trigger] pool.shared.contains_key(key)
                &&& pool.shared[key].device == device
                &&& components(pool.shared[key].image_config) == components(request.image_config)
                &&& components(key.1) == components(request.global_config)
            },
        acquire_begun(pool, request, image).1 is Joined ==> request.access_mode
            == AccessMode::Shared,
        request.access_mode == AccessMode::Shared && pool.shared.contains_key(first.key()) ==> (
        components(first.image_config) == components(request.image_config) && components(
            first.global_config,
        ) == components(request.global_config) ==> acquire_begun(pool, request, image).1
            == PlanView::Joined(pool.shared[first.key()].device)),
        (forall|key: KeyView| #[trigger]
            pool.shared.contains_key(key) ==> components(pool.shared[key].image_config)
                != components(request.image_config)) ==> !(acquire_begun(pool, request, image).1
            is Joined),
{
    law_shared_keys(request, first);
    if pool.shared.contains_key(request.key()) {
        assert(components(request.key().0) == components(
            pool.shared[request.key()].image_config,
        ));
    }
}

/// Every shared device serves the image that it is found by, whatever is done to
/// the pool.
pub proof fn law_shared_devices_serve_their_image(
    pool: PoolView,
    request: RequestView,
    image: ImageInfo,
    device: DeviceView,
    sectors: u64,
    dev_id: u32,
)
    requires
        found_by_image(pool),
        joinable(pool, request),
    ensures
        found_by_image(acquire_begun(pool, request, image).0),
        found_by_image(acquire_finished(pool, request, image, device).0),
        found_by_image(release_begun(pool, dev_id).0),
        found_by_image(returned(pool, device, sectors).0),
        found_by_image(prewarmed(pool, device, sectors).0),
        found_by_image(refill_asked(pool).0),
        found_by_image(refill_ended(pool).0),
{
    law_canonical_spelling(request.image_config, request.image_config);
    let finished = acquire_finished(pool, request, image, device).0;
    assert forall|key: KeyView| #[trigger] finished.shared.contains_key(key) implies components(
        key.0,
    ) == components(finished.shared[key].image_config) by {
        if key != request.key() {
            assert(pool.shared.contains_key(key));
        } else if pool.shared.contains_key(key) {
            assert(components(key.0) == components(pool.shared[key].image_config));
        }
    }
    let begun = acquire_begun(pool, request, image).0;
    assert forall|key: KeyView| #[trigger] begun.shared.contains_key(key) implies components(key.0)
        == components(begun.shared[key].image_config) by {
        assert(pool.shared.contains_key(key));
    }
    let released = release_begun(pool, dev_id).0;
    assert forall|key: KeyView| #[trigger] released.shared.contains_key(key) implies components(
        key.0,
    ) == components(released.shared[key].image_config) by {
        assert(pool.shared.contains_key(key));
    }
}

/// What planning an acquire does. A join adds one holder and changes nothing
/// else. A device is reused exactly when one fits, any where devices can change
/// their size and else only one of the same size; it is the one that has been
/// idle longest, and the others stay in their order. A resize is asked for
/// exactly when the sizes differ. Where none fits a device is made, and nothing
/// changes.
pub proof fn law_acquire_plan(pool: PoolView, request: RequestView, image: ImageInfo)
    requires
        joinable(pool, request),
    ensures
        ({
            let (after, plan) = acquire_begun(pool, request, image);
            &&& after.exclusive == pool.exclusive
            &&& after.index == pool.index
            &&& after.refill_inflight == pool.refill_inflight
            &&& after.config == pool.config
            &&& after.features == pool.features
            &&& plan is Refused ==> after == pool
            &&& plan is Create ==> after == pool && forall|i: int|
                0 <= i < pool.idle.len() ==> pool.features & 0x400 == 0 && (
                #[trigger] pool.idle[i]).sectors != image.sectors
            &&& plan matches PlanView::Reuse { pooled, resize } ==> {
                &&& after.shared == pool.shared
                &&& exists|at: int|
                    {
                        &&& 0 <= at < pool.idle.len()
                        &&& pooled == #[trigger] pool.idle[at]
                        &&& after.idle == pool.idle.take(at) + pool.idle.skip(at + 1)
                        &&& pool.features & 0x400 != 0 ==> at == 0
                        &&& forall|i: int|
                            0 <= i < at ==> (#[trigger] pool.idle[i]).sectors != image.sectors
                    }
                &&& resize <==> pooled.sectors != image.sectors
                &&& pool.features & 0x400 == 0 ==> pooled.sectors == image.sectors
            }
            &&& plan matches PlanView::Joined(device) ==> {
                &&& after.idle == pool.idle
                &&& after.shared.dom() == pool.shared.dom()
                &&& device == pool.shared[request.key()].device
                &&& after.shared[request.key()].refcount == pool.shared[request.key()].refcount + 1
                &&& after.shared[request.key()].device == device
                &&& after.shared[request.key()].image_config
                    == pool.shared[request.key()].image_config
                &&& after.shared[request.key()].image == pool.shared[request.key()].image
                &&& forall|key: KeyView|
                    key != request.key() ==> #[trigger] after.shared[key] == pool.shared[key]
            }
        }),
{
    let (after, plan) = acquire_begun(pool, request, image);
    let fit = wanted_fit(pool.features, image.sectors);
    let at = first_fit(pool.idle, fit) as int;
    lemma_first_fit_bound(pool.idle, fit);
    law_first_fit(pool.idle, fit);
    if let PlanView::Create = plan {
        assert forall|i: int| 0 <= i < pool.idle.len() implies pool.features & 0x400 == 0 && (
        #[trigger] pool.idle[i]).sectors != image.sectors by {
            assert(!fits(pool.idle[i], fit));
        }
    }
    if let PlanView::Reuse { pooled, resize } = plan {
        assert(pool.idle.remove(at) =~= pool.idle.take(at) + pool.idle.skip(at + 1));
        assert forall|i: int| 0 <= i < at implies (#[trigger] pool.idle[i]).sectors
            != image.sectors by {
            assert(!fits(pool.idle[i], fit));
        }
        if pool.features & 0x400 != 0 && at > 0 {
            assert(!fits(pool.idle[0], fit));
        }
        assert(pooled == pool.idle[at]);
    }
    if let PlanView::Joined(_) = plan {
        assert(after.shared.dom() =~= pool.shared.dom());
    }
}

/// The first device that fits is the first: none before it does.
pub proof fn law_first_fit(idle: Seq<PooledView>, fit: Fit)
    ensures
        forall|i: int| 0 <= i < first_fit(idle, fit) ==> !fits(#[trigger] idle[i], fit),
    decreases idle.len(),
{
    if idle.len() > 0 && !fits(idle[0], fit) {
        let rest = idle.drop_first();
        law_first_fit(rest, fit);
        lemma_first_fit_bound(rest, fit);
        assert forall|i: int| 0 <= i < first_fit(idle, fit) implies !fits(
            #[trigger] idle[i],
            fit,
        ) by {
            if i > 0 {
                assert(rest[i - 1] == idle[i]);
            }
        }
    }
}

/// What recording a device does. A device for one holder is recorded under its
/// number with the image that it serves. A shared one that is new gets one holder
/// and is found by its number; where another client made it meanwhile, that one
/// gets a holder more, the client gets it, and the new device is stopped. Idle
/// devices and every other device stay as they are, and a refill is started
/// exactly when devices are made ahead of time, a device was recorded and none is
/// under way.
pub proof fn law_acquire_outcome(
    pool: PoolView,
    request: RequestView,
    image: ImageInfo,
    device: DeviceView,
)
    requires
        joinable(pool, request),
    ensures
        ({
            let (after, outcome) = acquire_finished(pool, request, image, device);
            let key = request.key();
            let joined = request.access_mode == AccessMode::Shared && pool.shared.contains_key(key);
            &&& after.idle == pool.idle
            &&& after.config == pool.config
            &&& after.features == pool.features
            &&& outcome.refill <==> !joined && pool.config.startup_prewarm
                && !pool.refill_inflight
            &&& after.refill_inflight <==> pool.refill_inflight || outcome.refill
            &&& outcome.stop is Some <==> joined
            &&& !joined ==> outcome.device == device
            &&& joined ==> {
                &&& outcome.stop == Some(device)
                &&& outcome.device == pool.shared[key].device
                &&& after.exclusive == pool.exclusive
                &&& after.index == pool.index
                &&& after.shared.dom() == pool.shared.dom()
                &&& after.shared[key].refcount == pool.shared[key].refcount + 1
                &&& after.shared[key].device == pool.shared[key].device
                &&& after.shared[key].image_config == pool.shared[key].image_config
                &&& forall|other: KeyView|
                    other != key ==> #[trigger] after.shared[other] == pool.shared[other]
            }
            &&& request.access_mode == AccessMode::Exclusive ==> {
                &&& after.shared == pool.shared
                &&& after.index == pool.index
                &&& after.exclusive.contains_key(device.id)
                &&& after.exclusive[device.id].device == device
                &&& after.exclusive[device.id].target == (TargetView::Image {
                    image_config: request.image_config,
                    image,
                })
                &&& forall|id: u32|
                    id != device.id ==> #[trigger] after.exclusive.contains_key(id)
                        == pool.exclusive.contains_key(id) && after.exclusive[id]
                        == pool.exclusive[id]
            }
            &&& request.access_mode == AccessMode::Shared && !joined ==> {
                &&& after.exclusive == pool.exclusive
                &&& after.index.contains_key(device.id) && after.index[device.id] == key
                &&& after.shared.contains_key(key)
                &&& after.shared[key].device == device
                &&& after.shared[key].image_config == request.image_config
                &&& after.shared[key].image == image
                &&& after.shared[key].refcount == 1
                &&& forall|other: KeyView|
                    other != key ==> #[trigger] after.shared.contains_key(other)
                        == pool.shared.contains_key(other) && after.shared[other]
                        == pool.shared[other]
            }
        }),
{
    let (after, outcome) = acquire_finished(pool, request, image, device);
    if request.access_mode == AccessMode::Shared && pool.shared.contains_key(request.key()) {
        assert(after.shared.dom() =~= pool.shared.dom());
    }
}

/// What a release does. A device with one holder leaves the pool and is to become
/// idle at the size of its image; so does a shared one with its last holder. A
/// shared one with more loses one. Every other device stays as it is.
pub proof fn law_release_plan(pool: PoolView, dev_id: u32)
    requires
        consistent(pool),
    ensures
        ({
            let (after, plan) = release_begun(pool, dev_id);
            &&& after.idle == pool.idle
            &&& after.refill_inflight == pool.refill_inflight
            &&& after.config == pool.config
            &&& after.features == pool.features
            &&& plan is Refused <==> !pool.exclusive.contains_key(dev_id)
                && !pool.index.contains_key(dev_id)
            &&& plan is Refused ==> after == pool
            &&& pool.exclusive.contains_key(dev_id) ==> {
                &&& plan matches ReleaseView::Idle { device, virtual_size }
                &&& device == pool.exclusive[dev_id].device
                &&& pool.exclusive[dev_id].target matches TargetView::Image { image, .. }
                &&& virtual_size == image.size_bytes
                &&& after.exclusive == pool.exclusive.remove(dev_id)
                &&& after.shared == pool.shared
                &&& after.index == pool.index
            }
            &&& !pool.exclusive.contains_key(dev_id) && pool.index.contains_key(dev_id) ==> {
                let key = pool.index[dev_id];
                &&& after.exclusive == pool.exclusive
                &&& plan is Kept <==> pool.shared[key].refcount >= 2
                &&& plan is Kept ==> after.index == pool.index && after.shared.dom()
                    == pool.shared.dom() && after.shared[key].refcount
                    == pool.shared[key].refcount - 1 && after.shared[key].device
                    == pool.shared[key].device && after.shared[key].image_config
                    == pool.shared[key].image_config
                &&& plan matches ReleaseView::Idle { device, virtual_size } ==> device
                    == pool.shared[key].device && virtual_size
                    == pool.shared[key].image.size_bytes && !after.shared.contains_key(key)
                    && !after.index.contains_key(dev_id)
                &&& forall|other: KeyView|
                    other != key ==> #[trigger] after.shared.contains_key(other)
                        == pool.shared.contains_key(other) && after.shared[other]
                        == pool.shared[other]
            }
        }),
{
    let (after, plan) = release_begun(pool, dev_id);
    if !pool.exclusive.contains_key(dev_id) && pool.index.contains_key(dev_id) {
        let key = pool.index[dev_id];
        assert(pool.shared.contains_key(key));
        if let ReleaseView::Kept = plan {
            assert(after.shared.dom() =~= pool.shared.dom());
        }
    }
}

/// A device is kept idle exactly while the pool is below its high watermark; it
/// then stands behind the others, which keep their order. The device of a release
/// starts a refill where devices are made ahead of time and none is under way.
pub proof fn law_idle_devices(pool: PoolView, device: DeviceView, sectors: u64)
    ensures
        ({
            let (after, kept, refill) = returned(pool, device, sectors);
            &&& kept <==> pool.idle.len() < pool.config.high_watermark
            &&& kept ==> after.idle.len() == pool.idle.len() + 1 && after.idle.last().device
                == device && after.idle.last().sectors == sectors && after.idle.drop_last()
                == pool.idle
            &&& !kept ==> after == pool
            &&& refill <==> kept && pool.config.startup_prewarm && !pool.refill_inflight
            &&& after.exclusive == pool.exclusive && after.shared == pool.shared && after.index
                == pool.index && after.config == pool.config && after.features == pool.features
        }),
        ({
            let (after, kept) = prewarmed(pool, device, sectors);
            &&& kept <==> pool.idle.len() < pool.config.high_watermark
            &&& kept ==> after.idle.len() == pool.idle.len() + 1 && after.idle.last().device
                == device && after.idle.last().sectors == sectors && after.idle.drop_last()
                == pool.idle
            &&& !kept ==> after == pool
            &&& after.exclusive == pool.exclusive && after.shared == pool.shared && after.index
                == pool.index && after.config == pool.config && after.features == pool.features
                && after.refill_inflight == pool.refill_inflight
        }),
{
    let pushed = pool.idle.push(PooledView { device, sectors });
    assert(pushed.drop_last() =~= pool.idle);
}

/// A refill makes as many devices as are missing to the low watermark; asking for
/// one and ending one change nothing but whether one is under way.
pub proof fn law_refills(pool: PoolView, len: nat)
    ensures
        len < pool.config.low_watermark ==> len + missing(len, pool.config)
            == pool.config.low_watermark,
        len >= pool.config.low_watermark ==> missing(len, pool.config) == 0,
        refill_asked(pool).0.refill_inflight,
        refill_asked(pool).1 <==> !pool.refill_inflight,
        refill_if_prewarm(pool).1 <==> pool.config.startup_prewarm && !pool.refill_inflight,
        refill_ended(pool).1 <==> pool.idle.len() < pool.config.low_watermark,
        refill_ended(pool).0.idle == pool.idle,
        refill_ended(pool).0.exclusive == pool.exclusive,
        refill_ended(pool).0.shared == pool.shared,
        refill_ended(pool).0.index == pool.index,
        refill_asked(pool).0.idle == pool.idle,
        refill_asked(pool).0.exclusive == pool.exclusive,
        refill_asked(pool).0.shared == pool.shared,
        refill_asked(pool).0.index == pool.index,
{
}

/// A device that changes its size, or of which a snapshot is taken, is one that
/// is held, and its image configuration is the one that it was acquired for.
pub proof fn law_held_devices(pool: PoolView, dev_id: u32)
    requires
        consistent(pool),
    ensures
        holding(pool, dev_id) is Some <==> pool.exclusive.contains_key(dev_id)
            || pool.index.contains_key(dev_id),
        holding(pool, dev_id) == Some(Holding::Exclusive) <==> pool.exclusive.contains_key(dev_id),
        resize_target(pool, dev_id) is Ok <==> pool.features & 0x400 != 0 && (
        pool.exclusive.contains_key(dev_id) || pool.index.contains_key(dev_id)),
        resize_target(pool, dev_id) matches Ok(how) ==> holding(pool, dev_id) == Some(how),
        held_image_config(pool, dev_id) is Some <==> holding(pool, dev_id) is Some,
        pool.exclusive.contains_key(dev_id) ==> (pool.exclusive[dev_id].target
            matches TargetView::Image { image_config, .. } && held_image_config(pool, dev_id)
            == Some(image_config)),
        !pool.exclusive.contains_key(dev_id) && pool.index.contains_key(dev_id)
            ==> held_image_config(pool, dev_id) == Some(
            pool.shared[pool.index[dev_id]].image_config,
        ),
{
    if pool.index.contains_key(dev_id) {
        assert(pool.shared.contains_key(pool.index[dev_id]));
    }
    if pool.exclusive.contains_key(dev_id) {
        assert(pool.exclusive[dev_id].target is Image);
    }
}

/// `device` is that of some record.
pub open spec fn in_some_records(records: Map<u32, RecordView>, device: DeviceView) -> bool {
    exists|id: u32| #[trigger] records.contains_key(id) && records[id].device == device
}

/// `device` is some shared device.
pub open spec fn in_some_shared(shared: Map<KeyView, SharedView>, device: DeviceView) -> bool {
    exists|key: KeyView| #[trigger] shared.contains_key(key) && shared[key].device == device
}

/// Stopping everything reaches every device: each that is held is in the list,
/// and nothing else is.
pub proof fn law_drained_lists(
    records: Map<u32, RecordView>,
    shared: Map<KeyView, SharedView>,
    list: Seq<DeviceView>,
)
    ensures
        lists_records(list, records) ==> (forall|id: u32| #[trigger]
            records.contains_key(id) ==> list.contains(records[id].device)) && (forall|k: int|
            0 <= k < list.len() ==> in_some_records(records, #[trigger] list[k])),
        lists_shared(list, shared) ==> (forall|key: KeyView| #[trigger]
            shared.contains_key(key) ==> list.contains(shared[key].device)) && (forall|k: int|
            0 <= k < list.len() ==> in_some_shared(shared, #[trigger] list[k])),
{
    if lists_records(list, records) {
        let ids = choose|ids: Seq<u32>|
            {
                &&& #[trigger] ids.no_duplicates()
                &&& forall|id: u32| ids.contains(id) <==> records.contains_key(id)
                &&& list == ids.map_values(|id: u32| records[id].device)
            };
        assert forall|id: u32| #[trigger] records.contains_key(id) implies list.contains(
            records[id].device,
        ) by {
            assert(ids.contains(id));
            let k = choose|k: int| 0 <= k < ids.len() && ids[k] == id;
            assert(list[k] == records[id].device);
        }
        assert forall|k: int| 0 <= k < list.len() implies in_some_records(
            records,
            #[trigger] list[k],
        ) by {
            assert(ids.contains(ids[k]));
            assert(records.contains_key(ids[k]) && records[ids[k]].device == list[k]);
        }
    }
    if lists_shared(list, shared) {
        let keys = choose|keys: Seq<KeyView>|
            {
                &&& #[trigger] keys.no_duplicates()
                &&& forall|key: KeyView| keys.contains(key) <==> shared.contains_key(key)
                &&& list == keys.map_values(|key: KeyView| shared[key].device)
            };
        assert forall|key: KeyView| #[trigger] shared.contains_key(key) implies list.contains(
            shared[key].device,
        ) by {
            assert(keys.contains(key));
            let k = choose|k: int| 0 <= k < keys.len() && keys[k] == key;
            assert(list[k] == shared[key].device);
        }
        assert forall|k: int| 0 <= k < list.len() implies in_some_shared(
            shared,
            #[trigger] list[k],
        ) by {
            assert(keys.contains(keys[k]));
            assert(shared.contains_key(keys[k]) && shared[keys[k]].device == list[k]);
        }
    }
}

} // verus!
