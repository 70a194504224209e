//! Who holds which pooled device: exclusive holders, shared holders with a
//! count, and the idle devices in between.
use crate::daemon::error::{DaemonError, ErrorView, plain_error};
use crate::daemon::protocol::AccessMode;
use crate::daemon::tables::{
    ActiveShared, Device, DeviceRecord, DeviceView, ImageInfo, KeyView, RecordView, SharedKey,
    SharedView, Target, TargetView, device_views, drain_records, index_contents, index_get,
    index_insert, index_new, index_remove, key_view, lists_records, no_index, no_records,
    none_shared, record_contents, records_get, records_insert, records_new, records_remove,
    shared_contents, shared_get, shared_insert, shared_keys, shared_new, shared_remove,
};
use crate::daemon::warm_pool::{
    Fit, PoolConfig, PooledDevice, PooledView, WarmPool, first_fit, lemma_first_fit_bound, missing,
};
use crate::fs_path::{FsPath, components, lossy_text, render};
use crate::path_laws::law_canonical_spelling;
use crate::text::{decimal, decimal_text, joined, joined3};
use dashmap::DashMap;
use vstd::prelude::*;

verus! {

/// The feature bit of the kernel driver that allows a live device to change
/// its size.
pub const UBLK_F_UPDATE_SIZE: u64 = 0x400;

/// Whether the features allow a live device to change its size.
pub open spec fn can_resize(features: u64) -> bool {
    features & UBLK_F_UPDATE_SIZE != 0
}

/// What a client asks for when it acquires a device.
#[derive(Debug)]
pub struct AcquireRequest {
    pub image_config: FsPath,
    pub global_config: FsPath,
    pub virtual_size: u64,
    pub access_mode: AccessMode,
}

/// The model of an acquire request.
#[verifier::ext_equal]
pub struct RequestView {
    pub image_config: Seq<u8>,
    pub global_config: Seq<u8>,
    pub virtual_size: u64,
    pub access_mode: AccessMode,
}

impl View for AcquireRequest {
    type V = RequestView;

    open spec fn view(&self) -> RequestView {
        RequestView {
            image_config: self.image_config@,
            global_config: self.global_config@,
            virtual_size: self.virtual_size,
            access_mode: self.access_mode,
        }
    }
}

impl RequestView {
    /// What a shared device for this request is found by.
    pub open spec fn key(self) -> KeyView {
        (render(components(self.image_config)), render(components(self.global_config)))
    }
}

impl AcquireRequest {
    /// What a shared device for this request is found by.
    pub fn key(&self) -> (r: SharedKey)
        ensures
            key_view(r) == self@.key(),
            components(key_view(r).0) == components(self.image_config@),
            components(key_view(r).1) == components(self.global_config@),
    {
        proof {
            law_canonical_spelling(self.image_config@, self.image_config@);
            law_canonical_spelling(self.global_config@, self.global_config@);
        }
        (
            self.image_config.canonical_spelling().bytes,
            self.global_config.canonical_spelling().bytes,
        )
    }
}

/// The model of the pool.
#[verifier::ext_equal]
pub struct PoolView {
    /// The idle devices, the longest idle first.
    pub idle: Seq<PooledView>,
    /// The devices with one holder, by number.
    pub exclusive: Map<u32, RecordView>,
    /// The devices with several holders.
    pub shared: Map<KeyView, SharedView>,
    /// Which shared device a number belongs to.
    pub index: Map<u32, KeyView>,
    /// Whether a refill is under way.
    pub refill_inflight: bool,
    pub config: PoolConfig,
    pub features: u64,
}

/// What is done to get a device for an acquire request.
#[derive(Debug)]
pub enum AcquirePlan {
    /// The request is answered with this error.
    Refused(DaemonError),
    /// The device that the other holders already have.
    Joined(Device),
    /// This idle device is bound to the image, and resized first where
    /// `resize` says so.
    Reuse { pooled: PooledDevice, resize: bool },
    /// A new device is made.
    Create,
}

/// The model of an acquire plan.
pub enum PlanView {
    Refused(ErrorView),
    Joined(DeviceView),
    Reuse { pooled: PooledView, resize: bool },
    Create,
}

impl View for AcquirePlan {
    type V = PlanView;

    open spec fn view(&self) -> PlanView {
        match *self {
            AcquirePlan::Refused(error) => PlanView::Refused(error@),
            AcquirePlan::Joined(device) => PlanView::Joined(device@),
            AcquirePlan::Reuse { pooled, resize } => PlanView::Reuse { pooled: pooled@, resize },
            AcquirePlan::Create => PlanView::Create,
        }
    }
}

/// What is left to do once a device is bound to the image of a request.
#[derive(Debug)]
pub struct AcquireOutcome {
    /// The device that the client gets.
    pub device: Device,
    /// A device that turned out to be superfluous and is stopped.
    pub stop: Option<Device>,
    /// Whether a refill of the idle pool is started.
    pub refill: bool,
}

/// The model of an acquire outcome.
#[verifier::ext_equal]
pub struct OutcomeView {
    pub device: DeviceView,
    pub stop: Option<DeviceView>,
    pub refill: bool,
}

impl View for AcquireOutcome {
    type V = OutcomeView;

    open spec fn view(&self) -> OutcomeView {
        OutcomeView {
            device: self.device@,
            stop: match self.stop {
                Some(device) => Some(device@),
                None => None,
            },
            refill: self.refill,
        }
    }
}

/// What a release leads to.
#[derive(Debug)]
pub enum ReleasePlan {
    /// The request is answered with this error.
    Refused(DaemonError),
    /// Other holders are left; the device stays as it is.
    Kept,
    /// The last holder is gone: the device is put on a placeholder of
    /// `virtual_size` bytes and made idle.
    Idle { device: Device, virtual_size: u64 },
}

/// The model of a release plan.
pub enum ReleaseView {
    Refused(ErrorView),
    Kept,
    Idle { device: DeviceView, virtual_size: u64 },
}

impl View for ReleasePlan {
    type V = ReleaseView;

    open spec fn view(&self) -> ReleaseView {
        match *self {
            ReleasePlan::Refused(error) => ReleaseView::Refused(error@),
            ReleasePlan::Kept => ReleaseView::Kept,
            ReleasePlan::Idle { device, virtual_size } => ReleaseView::Idle {
                device: device@,
                virtual_size,
            },
        }
    }
}

/// The text of the error for an image of another size than was asked for.
pub open spec fn size_mismatch_text(wanted: u64, actual: u64, image_config: Seq<u8>) -> Seq<char> {
    "requested overlaybd acquire virtual size "@ + decimal(wanted as nat)
        + " does not match image virtual size "@ + decimal(actual as nat) + ": "@ + lossy_text(
        image_config,
    )
}

/// The text of the error for a device that nobody holds.
pub open spec fn not_active_text(dev_id: u32) -> Seq<char> {
    "device "@ + decimal(dev_id as nat) + " not found in active pool"@
}

/// Which idle devices can serve an image of `sectors` blocks: every one where
/// a device can change its size, else only one of the same size.
pub open spec fn wanted_fit(features: u64, sectors: u64) -> Fit {
    if can_resize(features) {
        Fit::Any
    } else {
        Fit::Sectors(sectors)
    }
}

/// Whether the shared device that `request` asks for, if it asks for one and
/// there is one, can count one more holder.
pub open spec fn joinable(pool: PoolView, request: RequestView) -> bool {
    request.access_mode == AccessMode::Shared && pool.shared.contains_key(request.key())
        ==> pool.shared[request.key()].refcount < usize::MAX
}

/// The pool after one more holder of the shared device `key`.
pub open spec fn joined_by(pool: PoolView, key: KeyView) -> PoolView {
    let active = pool.shared[key];
    PoolView {
        shared: pool.shared.insert(
            key,
            SharedView { refcount: (active.refcount + 1) as usize, ..active },
        ),
        ..pool
    }
}

/// The pool after a refill was asked for, and whether one has to be started.
/// At most one is under way at any time.
pub open spec fn refill_asked(pool: PoolView) -> (PoolView, bool) {
    (PoolView { refill_inflight: true, ..pool }, !pool.refill_inflight)
}

/// Like `refill_asked` where devices are made ahead of time, else nothing.
pub open spec fn refill_if_prewarm(pool: PoolView) -> (PoolView, bool) {
    if pool.config.startup_prewarm {
        refill_asked(pool)
    } else {
        (pool, false)
    }
}

/// The pool and the plan after `request` was received and its image opened.
pub open spec fn acquire_begun(pool: PoolView, request: RequestView, image: ImageInfo) -> (
    PoolView,
    PlanView,
) {
    let at = first_fit(pool.idle, wanted_fit(pool.features, image.sectors));
    if request.virtual_size != image.size_bytes {
        (
            pool,
            PlanView::Refused(
                plain_error(
                    size_mismatch_text(
                        request.virtual_size,
                        image.size_bytes,
                        request.image_config,
                    ),
                ),
            ),
        )
    } else if request.access_mode == AccessMode::Shared && pool.shared.contains_key(
        request.key(),
    ) {
        (joined_by(pool, request.key()), PlanView::Joined(pool.shared[request.key()].device))
    } else if at < pool.idle.len() {
        (
            PoolView { idle: pool.idle.remove(at as int), ..pool },
            PlanView::Reuse {
                pooled: pool.idle[at as int],
                resize: can_resize(pool.features) && pool.idle[at as int].sectors
                    != image.sectors,
            },
        )
    } else {
        (pool, PlanView::Create)
    }
}

/// The record of a device that serves the image of `request`.
pub open spec fn record_for(request: RequestView, image: ImageInfo, device: DeviceView) -> RecordView {
    RecordView {
        device,
        target: TargetView::Image { image_config: request.image_config, image },
    }
}

/// The pool and what is left to do once `device` serves the image of
/// `request`.
pub open spec fn acquire_finished(
    pool: PoolView,
    request: RequestView,
    image: ImageInfo,
    device: DeviceView,
) -> (PoolView, OutcomeView) {
    let key = request.key();
    if request.access_mode == AccessMode::Exclusive {
        let (after, refill) = refill_if_prewarm(pool);
        (
            PoolView {
                exclusive: pool.exclusive.insert(device.id, record_for(request, image, device)),
                ..after
            },
            OutcomeView { device, stop: None, refill },
        )
    } else if pool.shared.contains_key(key) {
        (
            joined_by(pool, key),
            OutcomeView { device: pool.shared[key].device, stop: Some(device), refill: false },
        )
    } else {
        let (after, refill) = refill_if_prewarm(pool);
        (
            PoolView {
                shared: pool.shared.insert(
                    key,
                    SharedView {
                        device,
                        image_config: request.image_config,
                        image,
                        refcount: 1,
                    },
                ),
                index: pool.index.insert(device.id, key),
                ..after
            },
            OutcomeView { device, stop: None, refill },
        )
    }
}

/// The size of the image that a target serves.
pub open spec fn target_size(target: TargetView) -> u64 {
    match target {
        TargetView::Cow => 0,
        TargetView::Image { image, .. } => image.size_bytes,
    }
}

/// The pool and the plan after a holder of `dev_id` gave it back.
pub open spec fn release_begun(pool: PoolView, dev_id: u32) -> (PoolView, ReleaseView) {
    if pool.exclusive.contains_key(dev_id) {
        let record = pool.exclusive[dev_id];
        (
            PoolView { exclusive: pool.exclusive.remove(dev_id), ..pool },
            ReleaseView::Idle { device: record.device, virtual_size: target_size(record.target) },
        )
    } else if pool.index.contains_key(dev_id) && pool.shared.contains_key(pool.index[dev_id]) {
        let key = pool.index[dev_id];
        let active = pool.shared[key];
        if active.refcount > 1 {
            (
                PoolView {
                    shared: pool.shared.insert(
                        key,
                        SharedView { refcount: (active.refcount - 1) as usize, ..active },
                    ),
                    ..pool
                },
                ReleaseView::Kept,
            )
        } else {
            (
                PoolView {
                    shared: pool.shared.remove(key),
                    index: pool.index.remove(dev_id),
                    ..pool
                },
                ReleaseView::Idle { device: active.device, virtual_size: active.image.size_bytes },
            )
        }
    } else {
        (pool, ReleaseView::Refused(plain_error(not_active_text(dev_id))))
    }
}

/// The pool after `device`, which now serves a placeholder of `sectors`
/// blocks, came back; whether it is kept; whether a refill is started. Where
/// the pool is full the device is not kept.
pub open spec fn returned(pool: PoolView, device: DeviceView, sectors: u64) -> (
    PoolView,
    bool,
    bool,
) {
    if pool.idle.len() < pool.config.high_watermark {
        let (after, refill) = refill_if_prewarm(pool);
        (
            PoolView { idle: pool.idle.push(PooledView { device, sectors }), ..after },
            true,
            refill,
        )
    } else {
        (pool, false, false)
    }
}

/// The pool after a device made ahead of time was added, and whether it was
/// kept.
pub open spec fn prewarmed(pool: PoolView, device: DeviceView, sectors: u64) -> (PoolView, bool) {
    if pool.idle.len() < pool.config.high_watermark {
        (PoolView { idle: pool.idle.push(PooledView { device, sectors }), ..pool }, true)
    } else {
        (pool, false)
    }
}

/// The pool after a refill ended, and whether the next one is started at once
/// because devices are still missing.
pub open spec fn refill_ended(pool: PoolView) -> (PoolView, bool) {
    let again = missing(pool.idle.len(), pool.config) > 0;
    (PoolView { refill_inflight: again, ..pool }, again)
}

/// What becomes of a device that was given back.
#[derive(Debug)]
pub enum ReturnOutcome {
    /// It is idle; a refill is started where `refill` says so.
    Kept { refill: bool },
    /// The pool is full: the device is stopped.
    Stop(Device),
}

/// How a device is held.
#[derive(Debug, Clone, Copy, PartialEq, Eq, Structural)]
pub enum Holding {
    Exclusive,
    Shared,
}

/// How `dev_id` is held, if it is.
pub open spec fn holding(pool: PoolView, dev_id: u32) -> Option<Holding> {
    if pool.exclusive.contains_key(dev_id) {
        Some(Holding::Exclusive)
    } else if pool.index.contains_key(dev_id) && pool.shared.contains_key(pool.index[dev_id]) {
        Some(Holding::Shared)
    } else {
        None
    }
}

/// The configuration of the image that the held device `dev_id` serves.
pub open spec fn held_image_config(pool: PoolView, dev_id: u32) -> Option<Seq<u8>> {
    match holding(pool, dev_id) {
        Some(Holding::Exclusive) => match pool.exclusive[dev_id].target {
            TargetView::Image { image_config, .. } => Some(image_config),
            TargetView::Cow => None,
        },
        Some(Holding::Shared) => Some(pool.shared[pool.index[dev_id]].image_config),
        None => None,
    }
}

/// The text of the error for a kernel that cannot change the size of a live
/// device.
pub open spec fn no_resize_text() -> Seq<char> {
    "UBLK_F_UPDATE_SIZE not supported by kernel"@
}

/// How the device that is to change its size is held, or why it cannot.
pub open spec fn resize_target(pool: PoolView, dev_id: u32) -> Result<Holding, ErrorView> {
    if !can_resize(pool.features) {
        Err(plain_error(no_resize_text()))
    } else {
        match holding(pool, dev_id) {
            Some(holding) => Ok(holding),
            None => Err(plain_error(not_active_text(dev_id))),
        }
    }
}

/// A pool in which every device has one place and the index is exact.
pub open spec fn consistent(pool: PoolView) -> bool {
    &&& pool.idle.len() <= pool.config.high_watermark
    &&& forall|id: u32| #[trigger]
        pool.exclusive.contains_key(id) ==> pool.exclusive[id].device.id == id
            && pool.exclusive[id].target is Image
    &&& forall|id: u32| #[trigger]
        pool.index.contains_key(id) ==> pool.shared.contains_key(pool.index[id])
            && pool.shared[pool.index[id]].device.id == id
    &&& forall|key: KeyView| #[trigger]
        pool.shared.contains_key(key) ==> pool.shared[key].refcount >= 1
            && pool.index.contains_key(pool.shared[key].device.id)
            && pool.index[pool.shared[key].device.id] == key
    &&& forall|id: u32|
        !(#[trigger] pool.exclusive.contains_key(id) && #[trigger] pool.index.contains_key(id))
    &&& forall|i: int|
        0 <= i < pool.idle.len() ==> !pool.exclusive.contains_key(
            (#[trigger] pool.idle[i]).device.id,
        ) && !pool.index.contains_key(pool.idle[i].device.id)
    &&& forall|i: int, j: int|
        0 <= i < j < pool.idle.len() ==> (#[trigger] pool.idle[i]).device.id != (
        #[trigger] pool.idle[j]).device.id
}

/// A pool in which every shared device serves the image that it is found by.
pub open spec fn found_by_image(pool: PoolView) -> bool {
    forall|key: KeyView| #[trigger]
        pool.shared.contains_key(key) ==> components(key.0) == components(
            pool.shared[key].image_config,
        )
}

/// Whether the number `id` belongs to a device of the pool.
pub open spec fn knows(pool: PoolView, id: u32) -> bool {
    ||| pool.exclusive.contains_key(id)
    ||| pool.index.contains_key(id)
    ||| exists|i: int| 0 <= i < pool.idle.len() && (#[trigger] pool.idle[i]).device.id == id
}

/// All devices of a pool, to be stopped in this order.
#[derive(Debug)]
pub struct Drained {
    pub exclusive: Vec<Device>,
    pub shared: Vec<Device>,
    pub idle: Vec<Device>,
}

/// `list` holds every shared device once, in some order.
pub open spec fn lists_shared(list: Seq<DeviceView>, shared: Map<KeyView, SharedView>) -> bool {
    exists|keys: Seq<KeyView>|
        {
            &&& #[trigger] keys.no_duplicates()
            &&& forall|key: KeyView| keys.contains(key) <==> shared.contains_key(key)
            &&& list == keys.map_values(|key: KeyView| shared[key].device)
        }
}

/// Devices with holders and the idle ones.
pub struct PoolState {
    idle: WarmPool,
    exclusive: DashMap<u32, DeviceRecord>,
    shared: DashMap<SharedKey, ActiveShared>,
    index: DashMap<u32, SharedKey>,
    refill_inflight: bool,
    config: PoolConfig,
    features: u64,
}

impl View for PoolState {
    type V = PoolView;

    closed spec fn view(&self) -> PoolView {
        PoolView {
            idle: self.idle@,
            exclusive: record_contents(self.exclusive),
            shared: shared_contents(self.shared),
            index: index_contents(self.index),
            refill_inflight: self.refill_inflight,
            config: self.config,
            features: self.features,
        }
    }
}

impl PoolState {
    /// The idle devices are bounded by the configuration of the pool.
    pub closed spec fn inv(&self) -> bool {
        self.idle.spec_config() == self.config
    }

    /// A pool without devices.
    pub fn new(config: PoolConfig, features: u64) -> (r: PoolState)
        ensures
            r.inv(),
            consistent(r@),
            found_by_image(r@),
            r@ == (PoolView {
                idle: Seq::empty(),
                exclusive: no_records(),
                shared: none_shared(),
                index: no_index(),
                refill_inflight: false,
                config,
                features,
            }),
    {
        PoolState {
            idle: WarmPool::new(config),
            exclusive: records_new(),
            shared: shared_new(),
            index: index_new(),
            refill_inflight: false,
            config,
            features,
        }
    }

    /// The feature bits of the kernel driver.
    pub fn features(&self) -> (r: u64)
        ensures
            r == self@.features,
    {
        self.features
    }

    /// The number of idle devices.
    pub fn idle_len(&self) -> (r: usize)
        ensures
            r == self@.idle.len(),
    {
        self.idle.len()
    }

    /// Whether a live device can change its size.
    pub fn supports_update_size(&self) -> (r: bool)
        ensures
            r == can_resize(self@.features),
            r == (self@.features & 0x400 != 0),
    {
        self.features & UBLK_F_UPDATE_SIZE != 0
    }

    /// Whether the shared device that `request` asks for, if it asks for one and
    /// there is one, can count one more holder.
    pub fn can_join(&self, request: &AcquireRequest) -> (r: bool)
        ensures
            r == joinable(self@, request@),
    {
        if request.access_mode != AccessMode::Shared {
            return true;
        }
        match shared_get(&self.shared, &request.key()) {
            Some(active) => active.refcount < usize::MAX,
            None => true,
        }
    }

    /// Adds a holder to the shared device `key` and gives that device.
    fn join(&mut self, key: SharedKey, active: ActiveShared) -> (r: Device)
        requires
            old(self).inv(),
            old(self)@.shared.contains_key(key_view(key)),
            old(self)@.shared[key_view(key)] == active@,
            active.refcount < usize::MAX,
        ensures
            final(self).inv(),
            final(self)@ == joined_by(old(self)@, key_view(key)),
            r@ == active@.device,
    {
        let device: Device = active.device.clone();
        let joined: ActiveShared = ActiveShared {
            device: active.device,
            image_config: active.image_config,
            image: active.image,
            refcount: active.refcount + 1,
        };
        let _ = shared_insert(&mut self.shared, key, joined);
        assert(self@ =~= joined_by(old(self)@, key_view(key)));
        device
    }

    /// Decides how to get a device for `request`, whose image was opened as
    /// `image`. A shared device that is already active gets one more holder; an
    /// idle device that is to be used leaves the pool.
    pub fn begin_acquire(&mut self, request: &AcquireRequest, image: ImageInfo) -> (r: AcquirePlan)
        requires
            old(self).inv(),
            joinable(old(self)@, request@),
        ensures
            final(self).inv(),
            (final(self)@, r@) == acquire_begun(old(self)@, request@, image),
    {
        if request.virtual_size != image.size_bytes {
            return AcquirePlan::Refused(
                size_mismatch(request.virtual_size, image.size_bytes, &request.image_config),
            );
        }
        if request.access_mode == AccessMode::Shared {
            let key: SharedKey = request.key();
            if let Some(active) = shared_get(&self.shared, &key) {
                let device: Device = self.join(key, active);
                return AcquirePlan::Joined(device);
            }
        }
        let fit: Fit = if self.supports_update_size() {
            Fit::Any
        } else {
            Fit::Sectors(image.sectors)
        };
        proof {
            lemma_first_fit_bound(self@.idle, fit);
        }
        match self.idle.try_acquire(fit) {
            Some(pooled) => {
                let resize: bool = self.supports_update_size() && pooled.sectors != image.sectors;
                assert(self@ =~= acquire_begun(old(self)@, request@, image).0);
                AcquirePlan::Reuse { pooled, resize }
            },
            None => {
                assert(self@ =~= old(self)@);
                AcquirePlan::Create
            },
        }
    }

    /// Asks for a refill of the idle pool; whether one has to be started.
    pub fn schedule_refill(&mut self) -> (r: bool)
        requires
            old(self).inv(),
        ensures
            final(self).inv(),
            (final(self)@, r) == refill_asked(old(self)@),
    {
        let start: bool = !self.refill_inflight;
        self.refill_inflight = true;
        start
    }

    fn schedule_refill_if_prewarm(&mut self) -> (r: bool)
        requires
            old(self).inv(),
        ensures
            final(self).inv(),
            (final(self)@, r) == refill_if_prewarm(old(self)@),
    {
        if self.config.startup_prewarm {
            self.schedule_refill()
        } else {
            false
        }
    }

    /// Records `device`, which by now serves the image of `request`, with its
    /// holder. Where another client made the same shared device meanwhile, the
    /// client gets that one and `device` is to be stopped.
    pub fn finish_acquire(
        &mut self,
        request: &AcquireRequest,
        image: ImageInfo,
        device: Device,
    ) -> (r: AcquireOutcome)
        requires
            old(self).inv(),
            joinable(old(self)@, request@),
        ensures
            final(self).inv(),
            (final(self)@, r@) == acquire_finished(old(self)@, request@, image, device@),
    {
        match request.access_mode {
            AccessMode::Exclusive => {
                let refill: bool = self.schedule_refill_if_prewarm();
                let record: DeviceRecord = DeviceRecord {
                    device: device.clone(),
                    target: Target::Image { image_config: request.image_config.clone(), image },
                };
                let _ = records_insert(&mut self.exclusive, device.id, record);
                assert(self@ =~= acquire_finished(old(self)@, request@, image, device@).0);
                AcquireOutcome { device, stop: None, refill }
            },
            AccessMode::Shared => {
                let key: SharedKey = request.key();
                if let Some(active) = shared_get(&self.shared, &key) {
                    let existing: Device = self.join(key, active);
                    return AcquireOutcome { device: existing, stop: Some(device), refill: false };
                }
                let index_key: SharedKey = request.key();
                let _ = index_insert(&mut self.index, device.id, index_key);
                let active: ActiveShared = ActiveShared {
                    device: device.clone(),
                    image_config: request.image_config.clone(),
                    image,
                    refcount: 1,
                };
                let _ = shared_insert(&mut self.shared, key, active);
                let refill: bool = self.schedule_refill_if_prewarm();
                assert(self@ =~= acquire_finished(old(self)@, request@, image, device@).0);
                AcquireOutcome { device, stop: None, refill }
            },
        }
    }

    /// Takes one holder from `dev_id`.
    pub fn begin_release(&mut self, dev_id: u32) -> (r: ReleasePlan)
        requires
            old(self).inv(),
        ensures
            final(self).inv(),
            (final(self)@, r@) == release_begun(old(self)@, dev_id),
    {
        if let Some(record) = records_remove(&mut self.exclusive, dev_id) {
            let virtual_size: u64 = match &record.target {
                Target::Cow => 0,
                Target::Image { image, .. } => image.size_bytes,
            };
            assert(self@ =~= release_begun(old(self)@, dev_id).0);
            return ReleasePlan::Idle { device: record.device, virtual_size };
        }
        assert(self@ =~= old(self)@);
        if let Some(key) = index_get(&self.index, dev_id) {
            if let Some(active) = shared_get(&self.shared, &key) {
                if active.refcount > 1 {
                    let left: ActiveShared = ActiveShared {
                        device: active.device,
                        image_config: active.image_config,
                        image: active.image,
                        refcount: active.refcount - 1,
                    };
                    let _ = shared_insert(&mut self.shared, key, left);
                    assert(self@ =~= release_begun(old(self)@, dev_id).0);
                    return ReleasePlan::Kept;
                }
                let _ = index_remove(&mut self.index, dev_id);
                let _ = shared_remove(&mut self.shared, &key);
                assert(self@ =~= release_begun(old(self)@, dev_id).0);
                return ReleasePlan::Idle {
                    device: active.device,
                    virtual_size: active.image.size_bytes,
                };
            }
        }
        ReleasePlan::Refused(not_active(dev_id))
    }

    /// Makes `device` idle, which by now serves a placeholder of `sectors`
    /// blocks.
    pub fn return_idle(&mut self, device: Device, sectors: u64) -> (r: ReturnOutcome)
        requires
            old(self).inv(),
        ensures
            final(self).inv(),
            match r {
                ReturnOutcome::Kept { refill } => (final(self)@, true, refill) == returned(
                    old(self)@,
                    device@,
                    sectors,
                ),
                ReturnOutcome::Stop(excess) => excess@ == device@ && (final(self)@, false, false)
                    == returned(old(self)@, device@, sectors),
            },
    {
        match self.idle.try_push_bounded(PooledDevice { device, sectors }) {
            Some(excess) => {
                assert(self@ =~= old(self)@);
                ReturnOutcome::Stop(excess.device)
            },
            None => {
                let refill: bool = self.schedule_refill_if_prewarm();
                assert(self@ =~= returned(old(self)@, device@, sectors).0);
                ReturnOutcome::Kept { refill }
            },
        }
    }

    /// How many devices a refill makes.
    pub fn refill_count(&self) -> (r: usize)
        requires
            self.inv(),
        ensures
            r == missing(self@.idle.len(), self@.config),
    {
        self.idle.missing()
    }

    /// Adds a device made ahead of time. It is handed back, to be stopped, where
    /// the pool is full; the refill then ends.
    pub fn add_prewarmed(&mut self, device: Device, sectors: u64) -> (r: Option<Device>)
        requires
            old(self).inv(),
        ensures
            final(self).inv(),
            (final(self)@, r is None) == prewarmed(old(self)@, device@, sectors),
            r matches Some(excess) ==> excess@ == device@,
    {
        match self.idle.try_push_bounded(PooledDevice { device, sectors }) {
            Some(excess) => {
                assert(self@ =~= old(self)@);
                Some(excess.device)
            },
            None => {
                assert(self@ =~= prewarmed(old(self)@, device@, sectors).0);
                None
            },
        }
    }

    /// Ends a refill; whether the next one has to be started.
    pub fn end_refill(&mut self) -> (r: bool)
        requires
            old(self).inv(),
        ensures
            final(self).inv(),
            (final(self)@, r) == refill_ended(old(self)@),
    {
        self.refill_inflight = false;
        if self.idle.missing() > 0 {
            self.refill_inflight = true;
            true
        } else {
            false
        }
    }

    /// How `dev_id` is held, if it is.
    pub fn holding(&self, dev_id: u32) -> (r: Option<Holding>)
        ensures
            r == holding(self@, dev_id),
    {
        if let Some(_) = records_get(&self.exclusive, dev_id) {
            return Some(Holding::Exclusive);
        }
        if let Some(key) = index_get(&self.index, dev_id) {
            if let Some(_) = shared_get(&self.shared, &key) {
                return Some(Holding::Shared);
            }
        }
        None
    }

    /// How the device that is to change its size is held.
    pub fn resize_target(&self, dev_id: u32) -> (r: Result<Holding, DaemonError>)
        ensures
            match r {
                Ok(holding) => resize_target(self@, dev_id) == Ok::<Holding, ErrorView>(holding),
                Err(error) => resize_target(self@, dev_id) == Err::<Holding, ErrorView>(error@),
            },
    {
        if !self.supports_update_size() {
            return Err(
                DaemonError::plain("UBLK_F_UPDATE_SIZE not supported by kernel".to_owned()),
            );
        }
        match self.holding(dev_id) {
            Some(holding) => Ok(holding),
            None => Err(not_active(dev_id)),
        }
    }

    /// The configuration of the image that the held device `dev_id` serves.
    pub fn held_image_config(&self, dev_id: u32) -> (r: Option<FsPath>)
        ensures
            r is Some <==> held_image_config(self@, dev_id) is Some,
            r matches Some(path) ==> Some(path@) == held_image_config(self@, dev_id),
    {
        if let Some(record) = records_get(&self.exclusive, dev_id) {
            return match record.target {
                Target::Image { image_config, .. } => Some(image_config),
                Target::Cow => None,
            };
        }
        if let Some(key) = index_get(&self.index, dev_id) {
            if let Some(active) = shared_get(&self.shared, &key) {
                return Some(active.image_config);
            }
        }
        None
    }

    fn drain_shared(&mut self) -> (r: Vec<Device>)
        requires
            old(self).inv(),
        ensures
            final(self).inv(),
            final(self)@ == (PoolView {
                shared: none_shared(),
                index: final(self)@.index,
                ..old(self)@
            }),
            forall|id: u32| #[trigger]
                final(self)@.index.contains_key(id) <==> old(self)@.index.contains_key(id)
                    && !device_views(r@).map_values(|d: DeviceView| d.id).contains(id),
            forall|id: u32| #[trigger]
                final(self)@.index.contains_key(id) ==> final(self)@.index[id] == old(
                    self,
                )@.index[id],
            lists_shared(device_views(r@), old(self)@.shared),
    {
        let keys: Vec<SharedKey> = shared_keys(&self.shared);
        let mut r: Vec<Device> = Vec::new();
        let mut i: usize = 0;
        let ghost before = old(self)@.shared;
        let ghost views: Seq<KeyView> = keys@.map_values(|k: SharedKey| key_view(k));
        while i < keys.len()
            invariant
                i <= keys@.len(),
                r@.len() == i,
                before == old(self)@.shared,
                self.inv(),
                views == keys@.map_values(|k: SharedKey| key_view(k)),
                self@ == (PoolView { shared: self@.shared, index: self@.index, ..old(self)@ }),
                forall|a: int, b: int|
                    0 <= a < b < keys@.len() ==> key_view(#[trigger] keys@[a]) != key_view(
                        #[trigger] keys@[b],
                    ),
                forall|a: int|
                    0 <= a < keys@.len() ==> before.contains_key(key_view(#[trigger] keys@[a])),
                forall|key: KeyView| #[trigger]
                    self@.shared.contains_key(key) <==> before.contains_key(key)
                        && !views.take(i as int).contains(key),
                forall|key: KeyView| #[trigger]
                    self@.shared.contains_key(key) ==> self@.shared[key] == before[key],
                forall|k: int| 0 <= k < i ==> (#[trigger] r@[k])@ == before[views[k]].device,
                forall|id: u32| #[trigger]
                    self@.index.contains_key(id) <==> old(self)@.index.contains_key(id)
                        && !device_views(r@).map_values(|d: DeviceView| d.id).contains(id),
                forall|id: u32| #[trigger]
                    self@.index.contains_key(id) ==> self@.index[id] == old(self)@.index[id],
            decreases keys@.len() - i,
        {
            let ghost key = key_view(keys@[i as int]);
            let ghost taken = views.take(i as int);
            assert(views[i as int] == key);
            assert(views.take(i + 1) =~= taken.push(key));
            assert(forall|other: KeyView|
                views.take(i + 1).contains(other) <==> taken.contains(other) || other == key) by {
                assert forall|other: KeyView| taken.contains(other) || other
                    == key implies views.take(i + 1).contains(other) by {
                    if other == key {
                        assert(views.take(i + 1)[i as int] == other);
                    } else {
                        let k = choose|k: int| 0 <= k < taken.len() && taken[k] == other;
                        assert(views.take(i + 1)[k] == other);
                    }
                }
            }
            assert(!taken.contains(key)) by {
                if taken.contains(key) {
                    let k = choose|k: int| 0 <= k < taken.len() && taken[k] == key;
                    assert(key_view(keys@[k]) == key_view(keys@[i as int]));
                }
            }
            let ghost ids = device_views(r@).map_values(|d: DeviceView| d.id);
            if let Some(active) = shared_remove(&mut self.shared, &keys[i]) {
                let id: u32 = active.device.id;
                let _ = index_remove(&mut self.index, id);
                r.push(active.device);
                proof {
                    let now = device_views(r@).map_values(|d: DeviceView| d.id);
                    assert(now =~= ids.push(id));
                    assert forall|other: u32| now.contains(other) <==> ids.contains(other) || other
                        == id by {
                        if ids.contains(other) {
                            let k = choose|k: int| 0 <= k < ids.len() && ids[k] == other;
                            assert(now[k] == other);
                        }
                        if other == id {
                            assert(now[i as int] == other);
                        }
                    }
                }
            }
            i = i + 1;
        }
        proof {
            assert(views.take(views.len() as int) =~= views);
            assert forall|key: KeyView| views.contains(key) <==> before.contains_key(key) by {
                if before.contains_key(key) {
                    let k = choose|k: int|
                        0 <= k < keys@.len() && key_view(#[trigger] keys@[k]) == key;
                    assert(views[k] == key);
                }
                if views.contains(key) {
                    let k = choose|k: int| 0 <= k < views.len() && views[k] == key;
                    assert(key_view(keys@[k]) == key);
                }
            }
            assert(self@.shared =~= none_shared());
            assert forall|a: int, b: int|
                0 <= a < views.len() && 0 <= b < views.len() && a != b implies views[a]
                != views[b] by {
                assert(views[a] == key_view(keys@[a]));
                assert(views[b] == key_view(keys@[b]));
            }
            assert(views.no_duplicates());
            assert(device_views(r@) =~= views.map_values(|key: KeyView| before[key].device));
        }
        r
    }

    fn drain_idle(&mut self) -> (r: Vec<Device>)
        requires
            old(self).inv(),
        ensures
            final(self).inv(),
            final(self)@ == (PoolView { idle: Seq::empty(), ..old(self)@ }),
            device_views(r@) == old(self)@.idle.map_values(|p: PooledView| p.device),
    {
        let mut r: Vec<Device> = Vec::new();
        let ghost all = old(self)@.idle.map_values(|p: PooledView| p.device);
        assert(all.skip(0) =~= all);
        while self.idle.len() > 0
            invariant
                self.inv(),
                self@ == (PoolView { idle: self@.idle, ..old(self)@ }),
                all == device_views(r@) + self@.idle.map_values(|p: PooledView| p.device),
            decreases self@.idle.len(),
        {
            let ghost head = device_views(r@);
            let ghost rest = self@.idle;
            if let Some(pooled) = self.idle.pop_first() {
                r.push(pooled.device);
                assert(device_views(r@) =~= head.push(rest[0].device));
                assert(rest.map_values(|p: PooledView| p.device) =~= seq![rest[0].device]
                    + rest.drop_first().map_values(|p: PooledView| p.device));
                assert(device_views(r@) + self@.idle.map_values(|p: PooledView| p.device) =~= all);
            }
        }
        assert(self@.idle =~= Seq::empty());
        assert(device_views(r@) =~= all);
        r
    }

    /// Takes every device out of the pool, to be stopped.
    pub fn drain(&mut self) -> (r: Drained)
        requires
            old(self).inv(),
        ensures
            final(self).inv(),
            lists_records(device_views(r.exclusive@), old(self)@.exclusive),
            lists_shared(device_views(r.shared@), old(self)@.shared),
            device_views(r.idle@) == old(self)@.idle.map_values(|p: PooledView| p.device),
            final(self)@ == (PoolView {
                idle: Seq::empty(),
                exclusive: no_records(),
                shared: none_shared(),
                index: final(self)@.index,
                ..old(self)@
            }),
            forall|id: u32| #[trigger]
                final(self)@.index.contains_key(id) <==> old(self)@.index.contains_key(id)
                    && !device_views(r.shared@).map_values(|d: DeviceView| d.id).contains(id),
            forall|id: u32| #[trigger]
                final(self)@.index.contains_key(id) ==> final(self)@.index[id] == old(
                    self,
                )@.index[id],
            consistent(old(self)@) ==> final(self)@.index == no_index(),
    {
        let exclusive: Vec<Device> = drain_records(&mut self.exclusive);
        let shared: Vec<Device> = self.drain_shared();
        let idle: Vec<Device> = self.drain_idle();
        proof {
            if consistent(old(self)@) {
                let list = device_views(shared@);
                let keys = choose|keys: Seq<KeyView>|
                    {
                        &&& #[trigger] keys.no_duplicates()
                        &&& forall|key: KeyView|
                            keys.contains(key) <==> old(self)@.shared.contains_key(key)
                        &&& list == keys.map_values(|key: KeyView| old(self)@.shared[key].device)
                    };
                assert forall|id: u32| !(#[trigger] self@.index.contains_key(id)) by {
                    if old(self)@.index.contains_key(id) {
                        let key = old(self)@.index[id];
                        assert(keys.contains(key));
                        let k = choose|k: int| 0 <= k < keys.len() && keys[k] == key;
                        assert(list.map_values(|d: DeviceView| d.id)[k] == id);
                    }
                }
                assert(self@.index =~= no_index());
            }
        }
        Drained { exclusive, shared, idle }
    }
}

fn size_mismatch(wanted: u64, actual: u64, image_config: &FsPath) -> (r: DaemonError)
    ensures
        r@ == plain_error(size_mismatch_text(wanted, actual, image_config@)),
{
    let head: String = joined3(
        "requested overlaybd acquire virtual size ",
        decimal_text(wanted).as_str(),
        " does not match image virtual size ",
    );
    let sizes: String = joined(head.as_str(), decimal_text(actual).as_str());
    DaemonError::plain(joined3(sizes.as_str(), ": ", image_config.to_text_lossy().as_str()))
}

fn not_active(dev_id: u32) -> (r: DaemonError)
    ensures
        r@ == plain_error(not_active_text(dev_id)),
{
    DaemonError::plain(
        joined3("device ", decimal_text(dev_id as u64).as_str(), " not found in active pool"),
    )
}

} // verus!
