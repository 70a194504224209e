//! What is done for each request, and how it is answered.
use crate::daemon::error::{DaemonError, ErrorClass, ErrorView, in_context, plain_error};
use crate::daemon::pool::{AcquireRequest, Holding, PoolState, PoolView, held_image_config};
use crate::daemon::protocol::{AccessMode, DaemonRequest, DaemonResponse, ResizeToolSpec, UpperMode};
use crate::daemon::tables::{
    Device, DeviceRecord, RecordView, Target, TargetView, device_views, drain_records,
    lists_records, no_records, record_contents, records_get, records_insert, records_new,
    records_remove,
};
use crate::fs_path::{FsPath, lossy_text};
use crate::text::{decimal, decimal_text, joined, joined3};
use dashmap::DashMap;
use vstd::prelude::*;

verus! {

/// What is needed to make a device for a runtime image.
#[derive(Debug)]
pub struct RuntimeDeviceRequest {
    pub source_image_config: FsPath,
    pub global_config: FsPath,
    pub runtime_dir: FsPath,
    pub read_only: bool,
    pub runtime_upper_mode: UpperMode,
    pub requested_virtual_size: Option<u64>,
    pub known_source_virtual_size: Option<u64>,
    pub resize_tool: Option<ResizeToolSpec>,
    pub allow_shrink: bool,
}

/// What is done for a request.
#[derive(Debug)]
pub enum Call {
    CreateRaw { image_config: FsPath, global_config: FsPath },
    CreateRuntime(RuntimeDeviceRequest),
    CreateCow(CowConfig),
    Delete { dev_id: u32 },
    Restack { dev_id: u32, output_layer_path: FsPath },
    /// The held downloads of a sandbox are let go, then `answer` is sent.
    NotifyReady { device_key: String, answer: DaemonResponse },
    Acquire(AcquireRequest),
    Release { dev_id: u32 },
    UpdateSize { dev_id: u32, new_sectors: u64 },
    /// The daemon is told to shut down, then `answer` is sent.
    Shutdown { answer: DaemonResponse },
    /// The answer is known already.
    Answer(DaemonResponse),
    /// The request is answered with this error.
    Refuse(DaemonError),
}

/// How a copy-on-write device is set up.
#[derive(Debug)]
pub struct CowConfig {
    pub origin: FsPath,
    pub cow: FsPath,
    /// Whether the origin is read past the page cache.
    pub origin_dio: bool,
    /// Whether the copy is written past the page cache.
    pub cow_dio: bool,
    pub chunksize_kb: u32,
}

/// What is done for `request`. `features` are the features of the pool where
/// there is one; `resize_tool` is the resize tool of this daemon.
pub fn dispatch(
    request: DaemonRequest,
    features: Option<u64>,
    resize_tool: Option<ResizeToolSpec>,
) -> (r: Call)
    ensures
        match request {
            DaemonRequest::CreateOverlaybd { image_config, global_config } => r == (
            Call::CreateRaw { image_config, global_config }),
            DaemonRequest::CreateOverlaybdRuntimeDevice {
                source_image_config,
                global_config,
                runtime_dir,
                read_only,
                runtime_upper_mode,
                requested_virtual_size,
                known_source_virtual_size,
                allow_shrink,
            } => r == Call::CreateRuntime(
                RuntimeDeviceRequest {
                    source_image_config,
                    global_config,
                    runtime_dir,
                    read_only,
                    runtime_upper_mode,
                    requested_virtual_size,
                    known_source_virtual_size,
                    resize_tool,
                    allow_shrink,
                },
            ),
            DaemonRequest::CreateCow { origin, cow } => r == Call::CreateCow(
                CowConfig {
                    origin,
                    cow,
                    origin_dio: false,
                    cow_dio: false,
                    chunksize_kb: 32,
                },
            ),
            DaemonRequest::Delete { dev_id } => r == (Call::Delete { dev_id }),
            DaemonRequest::RestackSnapshot { dev_id, output_layer_path } => r == (Call::Restack {
                dev_id,
                output_layer_path,
            }),
            DaemonRequest::GetFeatures => r == Call::Answer(
                DaemonResponse::Features {
                    flags: match features {
                        Some(flags) => flags,
                        None => 0,
                    },
                },
            ),
            DaemonRequest::NotifySandboxReady { device_key } => r == (Call::NotifyReady {
                device_key,
                answer: DaemonResponse::Done,
            }),
            DaemonRequest::AcquireOverlaybd {
                image_config,
                global_config,
                virtual_size,
                access_mode,
            } => r == Call::Acquire(
                AcquireRequest { image_config, global_config, virtual_size, access_mode },
            ),
            DaemonRequest::ReleaseOverlaybd { dev_id } => if features is Some {
                r == (Call::Release { dev_id })
            } else {
                r matches Call::Refuse(error) && error@ == plain_error("warm pool not enabled"@)
            },
            DaemonRequest::UpdateSize { dev_id, new_sectors } => if features is Some {
                r == (Call::UpdateSize { dev_id, new_sectors })
            } else {
                r matches Call::Refuse(error) && error@ == plain_error("warm pool not enabled"@)
            },
            DaemonRequest::Shutdown => r == (Call::Shutdown { answer: DaemonResponse::Done }),
        },
{
    match request {
        DaemonRequest::CreateOverlaybd { image_config, global_config } => Call::CreateRaw {
            image_config,
            global_config,
        },
        DaemonRequest::CreateOverlaybdRuntimeDevice {
            source_image_config,
            global_config,
            runtime_dir,
            read_only,
            runtime_upper_mode,
            requested_virtual_size,
            known_source_virtual_size,
            allow_shrink,
        } => Call::CreateRuntime(
            RuntimeDeviceRequest {
                source_image_config,
                global_config,
                runtime_dir,
                read_only,
                runtime_upper_mode,
                requested_virtual_size,
                known_source_virtual_size,
                resize_tool,
                allow_shrink,
            },
        ),
        DaemonRequest::CreateCow { origin, cow } => Call::CreateCow(
            CowConfig { origin, cow, origin_dio: false, cow_dio: false, chunksize_kb: 32 },
        ),
        DaemonRequest::Delete { dev_id } => Call::Delete { dev_id },
        DaemonRequest::RestackSnapshot { dev_id, output_layer_path } => Call::Restack {
            dev_id,
            output_layer_path,
        },
        DaemonRequest::GetFeatures => {
            let flags: u64 = match features {
                Some(flags) => flags,
                None => 0,
            };
            Call::Answer(DaemonResponse::Features { flags })
        },
        DaemonRequest::NotifySandboxReady { device_key } => Call::NotifyReady {
            device_key,
            answer: DaemonResponse::Done,
        },
        DaemonRequest::AcquireOverlaybd {
            image_config,
            global_config,
            virtual_size,
            access_mode,
        } => Call::Acquire(
            AcquireRequest { image_config, global_config, virtual_size, access_mode },
        ),
        DaemonRequest::ReleaseOverlaybd { dev_id } => if features.is_some() {
            Call::Release { dev_id }
        } else {
            Call::Refuse(pool_missing())
        },
        DaemonRequest::UpdateSize { dev_id, new_sectors } => if features.is_some() {
            Call::UpdateSize { dev_id, new_sectors }
        } else {
            Call::Refuse(pool_missing())
        },
        DaemonRequest::Shutdown => Call::Shutdown { answer: DaemonResponse::Done },
    }
}

/// What is sent to the client: the answer, or the error under the heading of
/// its class.
pub fn respond(result: Result<DaemonResponse, DaemonError>) -> (r: DaemonResponse)
    ensures
        match result {
            Ok(response) => r == response,
            Err(error) => match error.class {
                ErrorClass::Terminal => r == (DaemonResponse::TerminalError {
                    message: error.message,
                }),
                ErrorClass::Invalid => r == (DaemonResponse::InvalidRequest {
                    message: error.message,
                }),
                ErrorClass::Plain => r == (DaemonResponse::Error { message: error.message }),
            },
        },
{
    match result {
        Ok(response) => response,
        Err(error) => match error.class {
            ErrorClass::Terminal => DaemonResponse::TerminalError { message: error.message },
            ErrorClass::Invalid => DaemonResponse::InvalidRequest { message: error.message },
            ErrorClass::Plain => DaemonResponse::Error { message: error.message },
        },
    }
}

/// The answer of a daemon without a pool to a request that needs one.
pub fn pool_missing() -> (r: DaemonError)
    ensures
        r@ == plain_error("warm pool not enabled"@),
{
    DaemonError::plain("warm pool not enabled".to_owned())
}

/// The text `a`, the number `n` and the text `b` in a row.
pub open spec fn numbered(a: Seq<char>, n: u32, b: Seq<char>) -> Seq<char> {
    a + decimal(n as nat) + b
}

fn numbered_text(a: &str, n: u32, b: &str) -> (r: String)
    ensures
        r@ == numbered(a@, n, b@),
{
    joined3(a, decimal_text(n as u64).as_str(), b)
}

/// The text of the error for a device that is not in the table.
pub open spec fn not_found_text(dev_id: u32) -> Seq<char> {
    numbered("device "@, dev_id, " not found"@)
}

/// The text of the error for a device that cannot be found for a snapshot.
pub open spec fn not_found_for_snapshot_text(dev_id: u32) -> Seq<char> {
    numbered("device "@, dev_id, " not found for snapshot"@)
}

/// The text of the error for a snapshot of a copy-on-write device.
pub open spec fn cow_snapshot_text(dev_id: u32) -> Seq<char> {
    numbered(
        "snapshot is only supported for overlaybd devices, not cow (dev_id="@,
        dev_id,
        ")"@,
    )
}

/// The devices outside the pool, by number.
pub struct DeviceTable {
    devices: DashMap<u32, DeviceRecord>,
}

impl View for DeviceTable {
    type V = Map<u32, RecordView>;

    closed spec fn view(&self) -> Map<u32, RecordView> {
        record_contents(self.devices)
    }
}

impl DeviceTable {
    /// A table without devices.
    pub fn new() -> (r: DeviceTable)
        ensures
            r@ == no_records(),
    {
        DeviceTable { devices: records_new() }
    }

    /// Records a device that is up, and gives the answer to its request.
    pub fn add_created(&mut self, record: DeviceRecord) -> (r: DaemonResponse)
        ensures
            final(self)@ == old(self)@.insert(record.device.id, record@),
            match r {
                DaemonResponse::DeviceCreated { dev_id, device_path } => dev_id
                    == record.device.id && device_path@ == record.device.path@,
                _ => false,
            },
    {
        let dev_id: u32 = record.device.id;
        let device_path: FsPath = record.device.path.clone();
        let _ = records_insert(&mut self.devices, dev_id, record);
        DaemonResponse::DeviceCreated { dev_id, device_path }
    }

    /// Takes out the device that is to be deleted.
    pub fn begin_delete(&mut self, dev_id: u32) -> (r: Result<DeviceRecord, DaemonError>)
        ensures
            final(self)@ == old(self)@.remove(dev_id),
            match r {
                Ok(record) => old(self)@.contains_key(dev_id) && record@ == old(self)@[dev_id],
                Err(error) => !old(self)@.contains_key(dev_id) && error@ == plain_error(
                    not_found_text(dev_id),
                ),
            },
    {
        match records_remove(&mut self.devices, dev_id) {
            Some(record) => Ok(record),
            None => Err(DaemonError::plain(numbered_text("device ", dev_id, " not found"))),
        }
    }

    /// Takes out every device, to be stopped.
    pub fn drain(&mut self) -> (r: Vec<Device>)
        ensures
            final(self)@ == no_records(),
            lists_records(device_views(r@), old(self)@),
    {
        drain_records(&mut self.devices)
    }

    /// Finds the image of which a snapshot is taken. The result is the image
    /// configuration whose lock is held meanwhile, where the device belongs to
    /// the pool; a device outside the pool needs none.
    pub fn restack_target(&self, pool: Option<&PoolState>, dev_id: u32) -> (r: Result<
        Option<FsPath>,
        DaemonError,
    >)
        ensures
            match restack_found(
                self@,
                match pool {
                    Some(pool) => Some(pool@),
                    None => None,
                },
                dev_id,
            ) {
                Ok(None) => r matches Ok(lock) && lock is None,
                Ok(Some(config)) => r matches Ok(lock) && lock matches Some(path) && path@
                    == config,
                Err(error) => r matches Err(e) && e@ == error,
            },
    {
        if let Some(record) = records_get(&self.devices, dev_id) {
            return match record.target {
                Target::Image { .. } => Ok(None),
                Target::Cow => Err(
                    DaemonError::plain(
                        numbered_text(
                            "snapshot is only supported for overlaybd devices, not cow (dev_id=",
                            dev_id,
                            ")",
                        ),
                    ),
                ),
            };
        }
        if let Some(pool) = pool {
            if let Some(config) = pool.held_image_config(dev_id) {
                return Ok(Some(config));
            }
        }
        Err(DaemonError::plain(numbered_text("device ", dev_id, " not found for snapshot")))
    }
}

/// The image of which a snapshot of `dev_id` is taken: which lock it needs, or
/// why there is none.
pub open spec fn restack_found(
    devices: Map<u32, RecordView>,
    pool: Option<PoolView>,
    dev_id: u32,
) -> Result<Option<Seq<u8>>, ErrorView> {
    if devices.contains_key(dev_id) {
        match devices[dev_id].target {
            TargetView::Image { .. } => Ok(None),
            TargetView::Cow => Err(plain_error(cow_snapshot_text(dev_id))),
        }
    } else if pool is Some && held_image_config(pool->0, dev_id) is Some {
        Ok(held_image_config(pool->0, dev_id))
    } else {
        Err(plain_error(not_found_for_snapshot_text(dev_id)))
    }
}

/// The answer to a snapshot request once the snapshot was taken, or was not.
pub fn restack_finished(
    dev_id: u32,
    output_layer_path: &FsPath,
    result: Result<String, DaemonError>,
) -> (r: Result<DaemonResponse, DaemonError>)
    ensures
        match result {
            Ok(descriptor) => r == Ok::<DaemonResponse, DaemonError>(
                DaemonResponse::RestackSnapshotCreated { descriptor },
            ),
            Err(error) => r matches Err(e) && e@ == in_context(
                numbered("restack overlaybd snapshot for dev_id="@, dev_id, " to "@) + lossy_text(
                    output_layer_path@,
                ),
                error@,
            ),
        },
{
    match result {
        Ok(descriptor) => Ok(DaemonResponse::RestackSnapshotCreated { descriptor }),
        Err(error) => {
            let head: String = numbered_text(
                "restack overlaybd snapshot for dev_id=",
                dev_id,
                " to ",
            );
            let context: String = joined(
                head.as_str(),
                output_layer_path.to_text_lossy().as_str(),
            );
            Err(error.context(context.as_str()))
        },
    }
}

/// The answer to a delete request once the device was deleted, or was not.
pub fn delete_finished(dev_id: u32, result: Result<(), DaemonError>) -> (r: Result<
    DaemonResponse,
    DaemonError,
>)
    ensures
        match result {
            Ok(()) => r == Ok::<DaemonResponse, DaemonError>(DaemonResponse::Deleted),
            Err(error) => r matches Err(e) && e@ == in_context(
                numbered("delete ublk device "@, dev_id, ""@),
                error@,
            ),
        },
{
    match result {
        Ok(()) => Ok(DaemonResponse::Deleted),
        Err(error) => Err(error.context(numbered_text("delete ublk device ", dev_id, "").as_str())),
    }
}

/// The answer to a size request once the size was changed, or was not.
pub fn size_update_finished(
    dev_id: u32,
    holding: Holding,
    result: Result<(), DaemonError>,
) -> (r: Result<DaemonResponse, DaemonError>)
    ensures
        match result {
            Ok(()) => r == Ok::<DaemonResponse, DaemonError>(DaemonResponse::SizeUpdated),
            Err(error) => r matches Err(e) && e@ == in_context(
                numbered(
                    match holding {
                        Holding::Exclusive => "update size for exclusive dev_id="@,
                        Holding::Shared => "update size for shared dev_id="@,
                    },
                    dev_id,
                    ""@,
                ),
                error@,
            ),
        },
{
    match result {
        Ok(()) => Ok(DaemonResponse::SizeUpdated),
        Err(error) => {
            let head: &str = match holding {
                Holding::Exclusive => "update size for exclusive dev_id=",
                Holding::Shared => "update size for shared dev_id=",
            };
            Err(error.context(numbered_text(head, dev_id, "").as_str()))
        },
    }
}

/// The answer to an acquire request once a device was found for it, or was not.
pub fn acquire_answered(result: Result<Device, DaemonError>) -> (r: Result<
    DaemonResponse,
    DaemonError,
>)
    ensures
        match result {
            Ok(device) => r == Ok::<DaemonResponse, DaemonError>(
                DaemonResponse::DeviceAcquired { dev_id: device.id, device_path: device.path },
            ),
            Err(error) => r == Err::<DaemonResponse, DaemonError>(error),
        },
{
    match result {
        Ok(device) => Ok(
            DaemonResponse::DeviceAcquired { dev_id: device.id, device_path: device.path },
        ),
        Err(error) => Err(error),
    }
}

/// The answer to a release request once the device was released, or was not.
pub fn release_answered(result: Result<(), DaemonError>) -> (r: Result<
    DaemonResponse,
    DaemonError,
>)
    ensures
        match result {
            Ok(()) => r == Ok::<DaemonResponse, DaemonError>(DaemonResponse::Released),
            Err(error) => r == Err::<DaemonResponse, DaemonError>(error),
        },
{
    match result {
        Ok(()) => Ok(DaemonResponse::Released),
        Err(error) => Err(error),
    }
}

/// The steps between an acquire request and its device.
#[derive(Debug, Clone, Copy, PartialEq, Eq, Structural)]
pub enum AcquireStage {
    /// The image service is looked up.
    Service,
    /// The image is opened.
    Open,
    /// An idle device is bound to the image.
    Swap,
    /// An idle device changes its size.
    Resize { dev_id: u32 },
    /// A new device is made.
    Create,
}

/// How an access mode is called in messages.
pub open spec fn mode_name(mode: AccessMode) -> Seq<char> {
    match mode {
        AccessMode::Exclusive => "exclusive"@,
        AccessMode::Shared => "shared"@,
    }
}

/// What a failed step of an acquire says it was doing.
pub open spec fn acquire_context(
    stage: AcquireStage,
    mode: AccessMode,
    image_config: Seq<u8>,
) -> Seq<char> {
    match stage {
        AcquireStage::Service => "resolve image service for acquire"@,
        AcquireStage::Open => "open overlaybd image: "@ + lossy_text(image_config),
        AcquireStage::Swap => "swap "@ + mode_name(mode) + " target state"@,
        AcquireStage::Resize { dev_id } => numbered(
            "update "@ + mode_name(mode) + " device size for dev_id="@,
            dev_id,
            ""@,
        ),
        AcquireStage::Create => "create new "@ + mode_name(mode)
            + " ublk device on pool miss"@,
    }
}

/// The error of an acquire of which `stage` failed.
pub fn acquire_failed(stage: AcquireStage, request: &AcquireRequest, error: DaemonError) -> (r:
    DaemonError)
    ensures
        r@ == in_context(
            acquire_context(stage, request.access_mode, request.image_config@),
            error@,
        ),
{
    let mode: &str = match request.access_mode {
        AccessMode::Exclusive => "exclusive",
        AccessMode::Shared => "shared",
    };
    let context: String = match stage {
        AcquireStage::Service => "resolve image service for acquire".to_owned(),
        AcquireStage::Open => joined(
            "open overlaybd image: ",
            request.image_config.to_text_lossy().as_str(),
        ),
        AcquireStage::Swap => joined3("swap ", mode, " target state"),
        AcquireStage::Resize { dev_id } => {
            let head: String = joined3("update ", mode, " device size for dev_id=");
            numbered_text(head.as_str(), dev_id, "")
        },
        AcquireStage::Create => joined3("create new ", mode, " ublk device on pool miss"),
    };
    error.context(context.as_str())
}

/// A runtime image that was laid out for a sandbox.
#[derive(Debug)]
pub struct RuntimeImage {
    pub image_config: FsPath,
    pub virtual_size: u64,
}

/// What follows once the runtime image was laid out, or was not.
#[derive(Debug)]
pub enum RuntimeStep {
    /// The request is answered with this error; nothing is left behind.
    Fail(DaemonError),
    /// A device of the pool is acquired for the image.
    Acquire { runtime: RuntimeImage, request: AcquireRequest },
    /// A device outside the pool is made for the image.
    Create { runtime: RuntimeImage, image_config: FsPath, global_config: FsPath },
}

/// What follows once the runtime image of `request` was laid out, or was not.
/// `pooled` says whether there is a pool.
pub fn runtime_laid_out(
    request: &RuntimeDeviceRequest,
    pooled: bool,
    result: Result<RuntimeImage, DaemonError>,
) -> (r: RuntimeStep)
    ensures
        match result {
            Err(error) => r matches RuntimeStep::Fail(e) && e@ == in_context(
                "materialize overlaybd runtime in "@ + lossy_text(request.runtime_dir@),
                error@,
            ),
            Ok(image) => if pooled {
                &&& r matches RuntimeStep::Acquire { runtime, request: acquire }
                &&& runtime == image
                &&& acquire.image_config@ == image.image_config@
                &&& acquire.global_config@ == request.global_config@
                &&& acquire.virtual_size == image.virtual_size
                &&& acquire.access_mode == AccessMode::Exclusive
            } else {
                &&& r matches RuntimeStep::Create { runtime, image_config, global_config }
                &&& runtime == image
                &&& image_config@ == image.image_config@
                &&& global_config@ == request.global_config@
            },
        },
{
    match result {
        Err(error) => {
            let context: String = joined(
                "materialize overlaybd runtime in ",
                request.runtime_dir.to_text_lossy().as_str(),
            );
            RuntimeStep::Fail(error.context(context.as_str()))
        },
        Ok(runtime) => {
            let image_config: FsPath = runtime.image_config.clone();
            let global_config: FsPath = request.global_config.clone();
            if pooled {
                let acquire: AcquireRequest = AcquireRequest {
                    image_config,
                    global_config,
                    virtual_size: runtime.virtual_size,
                    access_mode: AccessMode::Exclusive,
                };
                RuntimeStep::Acquire { runtime, request: acquire }
            } else {
                RuntimeStep::Create { runtime, image_config, global_config }
            }
        },
    }
}

/// How a request for a runtime device ends.
#[derive(Debug)]
pub enum RuntimeEnd {
    /// The device is up.
    Answer(DaemonResponse),
    /// The runtime image is removed again, then this error is answered.
    Rollback(DaemonError),
}

/// How the request ends once a device was found for `runtime`, or was not.
pub fn runtime_finished(runtime: RuntimeImage, result: Result<Device, DaemonError>) -> (r:
    RuntimeEnd)
    ensures
        match result {
            Ok(device) => r == RuntimeEnd::Answer(
                DaemonResponse::OverlaybdRuntimeDeviceCreated {
                    dev_id: device.id,
                    device_path: device.path,
                    actual_virtual_size: runtime.virtual_size,
                    runtime_image_config_path: runtime.image_config,
                },
            ),
            Err(error) => r matches RuntimeEnd::Rollback(e) && e@ == in_context(
                "create overlaybd runtime device from "@ + lossy_text(runtime.image_config@),
                error@,
            ),
        },
{
    match result {
        Ok(device) => RuntimeEnd::Answer(
            DaemonResponse::OverlaybdRuntimeDeviceCreated {
                dev_id: device.id,
                device_path: device.path,
                actual_virtual_size: runtime.virtual_size,
                runtime_image_config_path: runtime.image_config,
            },
        ),
        Err(error) => {
            let context: String = joined(
                "create overlaybd runtime device from ",
                runtime.image_config.to_text_lossy().as_str(),
            );
            RuntimeEnd::Rollback(error.context(context.as_str()))
        },
    }
}

/// An error keeps its class through every context, so the client is told of a
/// terminal failure or an invalid request however deep it arose.
pub proof fn law_class_survives_context(error: ErrorView, contexts: Seq<Seq<char>>)
    ensures
        in_contexts(contexts, error).class == error.class,
    decreases contexts.len(),
{
    if contexts.len() > 0 {
        law_class_survives_context(error, contexts.drop_last());
    }
}

/// `error` with each of `contexts` put in front of it in turn.
pub open spec fn in_contexts(contexts: Seq<Seq<char>>, error: ErrorView) -> ErrorView
    decreases contexts.len(),
{
    if contexts.len() == 0 {
        error
    } else {
        in_context(contexts.last(), in_contexts(contexts.drop_last(), error))
    }
}

/// A snapshot is taken of a device outside the pool without a lock, and of one
/// that is held in the pool under the lock of its image configuration; of a
/// copy-on-write device, and of one that is in neither place, none is taken.
pub proof fn law_snapshot_targets(
    devices: Map<u32, RecordView>,
    pool: Option<PoolView>,
    dev_id: u32,
)
    ensures
        devices.contains_key(dev_id) && devices[dev_id].target is Image ==> restack_found(
            devices,
            pool,
            dev_id,
        ) == Ok::<Option<Seq<u8>>, ErrorView>(None),
        devices.contains_key(dev_id) && devices[dev_id].target is Cow ==> restack_found(
            devices,
            pool,
            dev_id,
        ) is Err,
        !devices.contains_key(dev_id) ==> (match pool {
            Some(pool) => match held_image_config(pool, dev_id) {
                Some(config) => restack_found(devices, Some(pool), dev_id) == Ok::<
                    Option<Seq<u8>>,
                    ErrorView,
                >(Some(config)),
                None => restack_found(devices, Some(pool), dev_id) is Err,
            },
            None => restack_found(devices, None, dev_id) is Err,
        }),
{
}

/// What a failed step of an acquire says names the step, the access mode where a
/// device is bound, resized or made, and the image configuration where that is
/// opened.
pub proof fn law_acquire_contexts(mode: AccessMode, image_config: Seq<u8>, dev_id: u32)
    ensures
        acquire_context(AcquireStage::Service, mode, image_config)
            == "resolve image service for acquire"@,
        acquire_context(AcquireStage::Open, mode, image_config) == "open overlaybd image: "@
            + lossy_text(image_config),
        mode is Exclusive ==> {
            &&& acquire_context(AcquireStage::Swap, mode, image_config) == "swap "@
                + "exclusive"@ + " target state"@
            &&& acquire_context(AcquireStage::Create, mode, image_config) == "create new "@
                + "exclusive"@ + " ublk device on pool miss"@
            &&& acquire_context(AcquireStage::Resize { dev_id }, mode, image_config) == "update "@
                + "exclusive"@ + " device size for dev_id="@ + decimal(dev_id as nat) + ""@
        },
        mode is Shared ==> {
            &&& acquire_context(AcquireStage::Swap, mode, image_config) == "swap "@ + "shared"@
                + " target state"@
            &&& acquire_context(AcquireStage::Create, mode, image_config) == "create new "@
                + "shared"@ + " ublk device on pool miss"@
            &&& acquire_context(AcquireStage::Resize { dev_id }, mode, image_config) == "update "@
                + "shared"@ + " device size for dev_id="@ + decimal(dev_id as nat) + ""@
        },
{
}

} // verus!
