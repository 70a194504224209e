use aenv::daemon::error::{DaemonError, ErrorClass};
use aenv::daemon::handlers::{
    acquire_answered, delete_finished, dispatch, release_answered, respond, restack_finished,
    runtime_finished, runtime_laid_out, size_update_finished, Call, DeviceTable, RuntimeDeviceRequest, RuntimeEnd, RuntimeImage,
    RuntimeStep,
};
use aenv::daemon::lifecycle::{
    begin_cleanup, begin_stop, cleanup_step, create_failed, detected_features, serve_step,
    stop_step, CleanupAction, CleanupEnd, CleanupEvent, CleanupState, CreateStage, DeviceKind,
    ServeEvent, ServeStep, StopAction, EINVAL, ENODEV, ENOTTY, EOPNOTSUPP,
};
use aenv::daemon::placeholders::{
    pool_placeholder_dir, BuildAction, BuildStage, OpenedImage, PlaceholderTable,
};
use aenv::daemon::pool::{AcquirePlan, AcquireRequest, Holding, PoolState, UBLK_F_UPDATE_SIZE};
use aenv::daemon::protocol::{
    AccessMode, DaemonRequest, DaemonResponse, ResizeToolSpec, UpperMode,
};
use aenv::daemon::services::{known_as, service_failed, ServiceTable};
use aenv::daemon::tables::{Device, DeviceRecord, ImageInfo, Target};
use aenv::daemon::tasks::{
    AcquireAction, AcquireEvent, AcquireTask, RefillAction, RefillEvent, RefillState,
    ReleaseAction, ReleaseEvent, ReleaseState,
};
use aenv::daemon::warm_pool::PoolConfig;
use aenv::fs_path::FsPath;

fn fs(text: &str) -> FsPath {
    FsPath::from_text(text)
}

fn error(message: &str) -> DaemonError {
    DaemonError::plain(message.to_string())
}

fn device(id: u32) -> Device {
    Device {
        id,
        path: fs(&format!("/dev/ublkb{id}")),
    }
}

fn image(sectors: u64) -> ImageInfo {
    ImageInfo {
        size_bytes: sectors * 512,
        sectors,
        read_only: false,
    }
}

fn pool(high_watermark: usize, startup_prewarm: bool, features: u64) -> PoolState {
    PoolState::new(
        PoolConfig {
            low_watermark: 1,
            high_watermark,
            maintenance_enabled: false,
            startup_prewarm,
        },
        features,
    )
}

fn request(config: &str, mode: AccessMode, sectors: u64) -> AcquireRequest {
    AcquireRequest {
        image_config: fs(config),
        global_config: fs("/global.json"),
        virtual_size: sectors * 512,
        access_mode: mode,
    }
}

/// Serves an acquire whose new device, if one is made, gets the number `fresh`.
/// Returns the number of the device and the names of the actions.
fn acquire(
    pool: &mut PoolState,
    request: AcquireRequest,
    sectors: u64,
    fresh: u32,
) -> (Result<u32, String>, Vec<&'static str>, Option<u64>) {
    let mut seen = Vec::new();
    let (mut task, mut action) = AcquireTask::begin(request, true).unwrap();
    loop {
        let event = match action {
            AcquireAction::ResolveService => {
                seen.push("service");
                AcquireEvent::Succeeded
            }
            AcquireAction::OpenImage => {
                seen.push("open");
                AcquireEvent::ImageOpened(image(sectors))
            }
            AcquireAction::Swap { discard, .. } => {
                assert!(discard);
                seen.push("swap");
                AcquireEvent::Succeeded
            }
            AcquireAction::Resize { sectors: wanted, .. } => {
                assert_eq!(wanted, sectors);
                seen.push("resize");
                AcquireEvent::Succeeded
            }
            AcquireAction::CreateDevice { .. } => {
                seen.push("create");
                AcquireEvent::DeviceCreated(device(fresh))
            }
            AcquireAction::Stop { .. } => {
                seen.push("stop");
                AcquireEvent::Succeeded
            }
            AcquireAction::Reply { device, refill } => return (Ok(device.id), seen, refill),
            AcquireAction::Fail(error) => return (Err(error.message), seen, None),
        };
        let (next_task, next_action) = task.step(pool, event);
        task = next_task;
        action = next_action;
    }
}

/// Serves a release whose placeholder has `sectors` blocks.
fn release(
    pool: &mut PoolState,
    dev_id: u32,
    sectors: u64,
) -> (Result<(), String>, Vec<&'static str>, Option<u64>) {
    let mut seen = Vec::new();
    let (mut state, mut action) = ReleaseState::begin(pool, dev_id);
    loop {
        let event = match action {
            ReleaseAction::ClearPageCache { .. } => {
                seen.push("clear");
                ReleaseEvent::Failed
            }
            ReleaseAction::FindPlaceholder { virtual_size } => {
                assert_eq!(virtual_size, sectors * 512);
                seen.push("placeholder");
                ReleaseEvent::PlaceholderFound { sectors }
            }
            ReleaseAction::SwapToPlaceholder { dev_id: swapped, .. } => {
                assert_eq!(swapped, dev_id);
                seen.push("swap");
                ReleaseEvent::Succeeded
            }
            ReleaseAction::Stop { .. } => {
                seen.push("stop");
                ReleaseEvent::Succeeded
            }
            ReleaseAction::Reply { refill } => return (Ok(()), seen, refill),
            ReleaseAction::Fail(error) => return (Err(error.message), seen, None),
        };
        let (next_state, next_action) = state.step(pool, event);
        state = next_state;
        action = next_action;
    }
}

#[test]
fn exclusive_device_goes_back_to_the_pool() {
    let mut pool = pool(2, false, 0);
    let (got, seen, refill) = acquire(&mut pool, request("/a", AccessMode::Exclusive, 8), 8, 1);
    assert_eq!(got, Ok(1));
    assert_eq!(seen, vec!["service", "open", "create"]);
    assert_eq!(refill, None);
    assert_eq!(pool.holding(1), Some(Holding::Exclusive));
    assert_eq!(pool.idle_len(), 0);

    let (done, seen, _) = release(&mut pool, 1, 8);
    assert_eq!(done, Ok(()));
    assert_eq!(seen, vec!["clear", "placeholder", "swap"]);
    assert_eq!(pool.holding(1), None);
    assert_eq!(pool.idle_len(), 1);

    let (got, seen, _) = acquire(&mut pool, request("/b", AccessMode::Exclusive, 8), 8, 2);
    assert_eq!(got, Ok(1));
    assert_eq!(seen, vec!["service", "open", "swap"]);
    assert_eq!(pool.idle_len(), 0);
}

#[test]
fn idle_device_of_another_size_is_left_or_resized() {
    let mut fixed = pool(2, false, 0);
    acquire(&mut fixed, request("/a", AccessMode::Exclusive, 8), 8, 1).0.unwrap();
    release(&mut fixed, 1, 8).0.unwrap();
    let (got, seen, _) = acquire(&mut fixed, request("/b", AccessMode::Exclusive, 16), 16, 2);
    assert_eq!(got, Ok(2));
    assert_eq!(seen, vec!["service", "open", "create"]);
    assert_eq!(fixed.idle_len(), 1);

    let mut flexible = pool(2, false, UBLK_F_UPDATE_SIZE | 1);
    assert!(flexible.supports_update_size());
    acquire(&mut flexible, request("/a", AccessMode::Exclusive, 8), 8, 1).0.unwrap();
    release(&mut flexible, 1, 8).0.unwrap();
    let (got, seen, _) = acquire(&mut flexible, request("/b", AccessMode::Exclusive, 16), 16, 2);
    assert_eq!(got, Ok(1));
    assert_eq!(seen, vec!["service", "open", "swap", "resize"]);
}

#[test]
fn full_pool_stops_the_device() {
    let mut pool = pool(1, true, 0);
    acquire(&mut pool, request("/a", AccessMode::Exclusive, 8), 8, 1).0.unwrap();
    acquire(&mut pool, request("/b", AccessMode::Exclusive, 8), 8, 2).0.unwrap();
    assert!(release(&mut pool, 1, 8).1.ends_with(&["swap"]));
    let (done, seen, refill) = release(&mut pool, 2, 8);
    assert_eq!(done, Ok(()));
    assert_eq!(seen, vec!["clear", "placeholder", "swap", "stop"]);
    assert_eq!(refill, None);
    assert_eq!(pool.idle_len(), 1);
}

#[test]
fn shared_device_counts_its_holders() {
    let mut pool = pool(2, false, 0);
    let first = acquire(&mut pool, request("/a/x", AccessMode::Shared, 8), 8, 7);
    assert_eq!(first.0, Ok(7));
    let second = acquire(&mut pool, request("/a//./x/", AccessMode::Shared, 8), 8, 8);
    assert_eq!(second.0, Ok(7));
    assert_eq!(second.1, vec!["service", "open"]);
    assert_eq!(pool.holding(7), Some(Holding::Shared));

    let (done, seen, _) = release(&mut pool, 7, 8);
    assert_eq!((done, seen), (Ok(()), vec![]));
    assert_eq!(pool.holding(7), Some(Holding::Shared));
    let (done, seen, _) = release(&mut pool, 7, 8);
    assert_eq!(done, Ok(()));
    assert_eq!(seen, vec!["clear", "placeholder", "swap"]);
    assert_eq!(pool.holding(7), None);
    assert_eq!(
        release(&mut pool, 7, 8).0,
        Err("device 7 not found in active pool".to_string())
    );
}

#[test]
fn concurrent_shared_acquire_uses_the_device_that_was_first() {
    let mut pool = pool(2, true, 0);
    let begin = |pool: &mut PoolState| {
        let (task, _) = AcquireTask::begin(request("/a", AccessMode::Shared, 8), true).unwrap();
        let (task, _) = task.step(pool, AcquireEvent::Succeeded);
        let (task, action) = task.step(pool, AcquireEvent::ImageOpened(image(8)));
        assert!(matches!(action, AcquireAction::CreateDevice { .. }));
        task
    };
    let one = begin(&mut pool);
    let two = begin(&mut pool);
    let (_, action) = one.step(&mut pool, AcquireEvent::DeviceCreated(device(1)));
    match action {
        AcquireAction::Reply { device, refill } => {
            assert_eq!(device.id, 1);
            assert_eq!(refill, Some(8 * 512));
        }
        other => panic!("unexpected action: {other:?}"),
    }
    let (two, action) = two.step(&mut pool, AcquireEvent::DeviceCreated(device(2)));
    match action {
        AcquireAction::Stop { device } => assert_eq!(device.id, 2),
        other => panic!("unexpected action: {other:?}"),
    }
    match two.step(&mut pool, AcquireEvent::Succeeded).1 {
        AcquireAction::Reply { device, refill } => {
            assert_eq!(device.id, 1);
            assert_eq!(refill, None);
        }
        other => panic!("unexpected action: {other:?}"),
    }
    assert_eq!(pool.holding(2), None);
    release(&mut pool, 1, 8).0.unwrap();
    assert_eq!(pool.holding(1), Some(Holding::Shared));
}

#[test]
fn acquire_of_the_wrong_size_is_refused() {
    let mut pool = pool(2, false, 0);
    let (got, seen, _) = acquire(&mut pool, request("/a", AccessMode::Shared, 8), 9, 1);
    assert_eq!(
        got,
        Err(
            "requested overlaybd acquire virtual size 4096 does not match image virtual size 4608: /a"
                .to_string()
        )
    );
    assert_eq!(seen, vec!["service", "open"]);
    let err = AcquireTask::begin(request("/a", AccessMode::Shared, 8), false).unwrap_err();
    assert_eq!(err.message, "warm pool not enabled");
}

#[test]
fn failed_acquire_says_what_was_done() {
    let mut pool = pool(2, false, UBLK_F_UPDATE_SIZE);
    let fail = |pool: &mut PoolState, events: Vec<AcquireEvent>| {
        let (mut task, _) =
            AcquireTask::begin(request("/a", AccessMode::Exclusive, 16), true).unwrap();
        for event in events {
            task = task.step(pool, event).0;
        }
        match task.step(pool, AcquireEvent::Failed(error("c"))).1 {
            AcquireAction::Fail(error) => error.message,
            other => panic!("unexpected action: {other:?}"),
        }
    };
    let open = || vec![AcquireEvent::Succeeded, AcquireEvent::ImageOpened(image(16))];
    assert_eq!(
        fail(&mut pool, vec![]),
        "resolve image service for acquire: c"
    );
    assert_eq!(
        fail(&mut pool, vec![AcquireEvent::Succeeded]),
        "open overlaybd image: /a: c"
    );
    assert_eq!(
        fail(&mut pool, open()),
        "create new exclusive ublk device on pool miss: c"
    );
    assert!(pool.add_prewarmed(device(3), 8).is_none());
    assert_eq!(
        fail(&mut pool, open()),
        "swap exclusive target state: c"
    );
    assert!(pool.add_prewarmed(device(4), 8).is_none());
    let mut events = open();
    events.push(AcquireEvent::Succeeded);
    assert_eq!(
        fail(&mut pool, events),
        "update exclusive device size for dev_id=4: c"
    );
    assert_eq!(pool.holding(4), None);
    assert_eq!(pool.idle_len(), 0);
}

#[test]
fn device_without_placeholder_is_stopped() {
    let mut pool = pool(2, false, 0);
    acquire(&mut pool, request("/a", AccessMode::Exclusive, 8), 8, 1).0.unwrap();
    let (state, _) = ReleaseState::begin(&mut pool, 1);
    let (state, _) = state.step(&mut pool, ReleaseEvent::Succeeded);
    let (state, action) = state.step(&mut pool, ReleaseEvent::Failed);
    assert!(matches!(action, ReleaseAction::Stop { .. }));
    let (_, action) = state.step(&mut pool, ReleaseEvent::Succeeded);
    assert!(matches!(action, ReleaseAction::Reply { refill: None }));
    assert_eq!(pool.idle_len(), 0);
}

#[test]
fn refill_runs_once_at_a_time() {
    let mut pool = pool(2, true, 0);
    assert!(pool.schedule_refill());
    assert!(!pool.schedule_refill());
    assert_eq!(pool.refill_count(), 1);
    assert!(pool.end_refill());
    assert!(pool.add_prewarmed(device(1), 8).is_none());
    assert_eq!(pool.refill_count(), 0);
    assert!(!pool.end_refill());
    assert!(pool.schedule_refill());
    assert!(pool.add_prewarmed(device(2), 8).is_none());
    assert_eq!(pool.add_prewarmed(device(3), 8).unwrap().id, 3);
}

#[test]
fn refill_reaches_the_low_watermark() {
    let mut pool = PoolState::new(
        PoolConfig {
            low_watermark: 3,
            high_watermark: 4,
            maintenance_enabled: false,
            startup_prewarm: true,
        },
        0,
    );
    assert!(pool.schedule_refill());
    let (mut state, mut action) = RefillState::begin(&mut pool);
    let mut fresh = 10;
    let end = loop {
        let event = match action {
            RefillAction::FindPlaceholder => RefillEvent::PlaceholderFound { sectors: 8 },
            RefillAction::CreateDevice => {
                fresh += 1;
                RefillEvent::DeviceCreated(device(fresh))
            }
            RefillAction::Stop { .. } => RefillEvent::Stopped,
            RefillAction::End { error, again } => break (error.is_none(), again),
        };
        let next = state.step(&mut pool, event);
        state = next.0;
        action = next.1;
    };
    assert_eq!(end, (true, false));
    assert_eq!(pool.idle_len(), 3);
    assert!(matches!(
        RefillState::begin(&mut pool).1,
        RefillAction::End {
            error: None,
            again: false
        }
    ));
}

#[test]
fn refill_ends_with_its_failure_or_a_full_pool() {
    let mut short = PoolState::new(
        PoolConfig {
            low_watermark: 2,
            high_watermark: 1,
            maintenance_enabled: false,
            startup_prewarm: true,
        },
        0,
    );
    let (state, _) = RefillState::begin(&mut short);
    let (state, _) = state.step(&mut short, RefillEvent::PlaceholderFound { sectors: 8 });
    let (state, action) = state.step(&mut short, RefillEvent::DeviceCreated(device(1)));
    assert!(matches!(action, RefillAction::CreateDevice));
    let (state, action) = state.step(&mut short, RefillEvent::DeviceCreated(device(2)));
    assert!(matches!(action, RefillAction::Stop { .. }));
    assert!(matches!(
        state.step(&mut short, RefillEvent::Stopped).1,
        RefillAction::End { again: true, .. }
    ));

    let message = |pool: &mut PoolState, state: RefillState| match state
        .step(pool, RefillEvent::Failed(error("c")))
        .1
    {
        RefillAction::End { error, .. } => error.unwrap().message,
        other => panic!("unexpected action: {other:?}"),
    };
    let mut empty = pool(2, true, 0);
    let (state, _) = RefillState::begin(&mut empty);
    assert_eq!(
        message(&mut empty, state),
        "build pool placeholder for prewarm: c"
    );
    let (state, _) = RefillState::begin(&mut empty);
    let (state, _) = state.step(&mut empty, RefillEvent::PlaceholderFound { sectors: 8 });
    assert_eq!(message(&mut empty, state), "prewarm overlaybd pool device: c");
}

#[test]
fn sizes_are_updated_only_where_the_kernel_can() {
    let mut plain = pool(2, false, 0);
    acquire(&mut plain, request("/a", AccessMode::Exclusive, 8), 8, 1).0.unwrap();
    assert_eq!(
        plain.resize_target(1).unwrap_err().message,
        "UBLK_F_UPDATE_SIZE not supported by kernel"
    );
    let mut flexible = pool(2, false, UBLK_F_UPDATE_SIZE);
    acquire(&mut flexible, request("/a", AccessMode::Exclusive, 8), 8, 1).0.unwrap();
    acquire(&mut flexible, request("/b", AccessMode::Shared, 8), 8, 2).0.unwrap();
    assert_eq!(flexible.resize_target(1).unwrap(), Holding::Exclusive);
    assert_eq!(flexible.resize_target(2).unwrap(), Holding::Shared);
    assert_eq!(
        flexible.resize_target(3).unwrap_err().message,
        "device 3 not found in active pool"
    );
    assert!(matches!(
        size_update_finished(1, Holding::Exclusive, Ok(())).unwrap(),
        DaemonResponse::SizeUpdated
    ));
    assert_eq!(
        size_update_finished(2, Holding::Shared, Err(error("c")))
            .unwrap_err()
            .message,
        "update size for shared dev_id=2: c"
    );
    assert_eq!(
        size_update_finished(1, Holding::Exclusive, Err(error("c")))
            .unwrap_err()
            .message,
        "update size for exclusive dev_id=1: c"
    );
}

#[test]
fn shutdown_drains_every_device() {
    let mut pool = pool(4, false, 0);
    acquire(&mut pool, request("/a", AccessMode::Exclusive, 8), 8, 1).0.unwrap();
    acquire(&mut pool, request("/b", AccessMode::Exclusive, 8), 8, 2).0.unwrap();
    acquire(&mut pool, request("/c", AccessMode::Shared, 8), 8, 3).0.unwrap();
    acquire(&mut pool, request("/d", AccessMode::Shared, 8), 8, 4).0.unwrap();
    assert!(pool.add_prewarmed(device(5), 8).is_none());
    assert!(pool.add_prewarmed(device(6), 8).is_none());
    let drained = pool.drain();
    let ids = |list: &Vec<Device>| {
        let mut ids: Vec<u32> = list.iter().map(|d| d.id).collect();
        ids.sort();
        ids
    };
    assert_eq!(ids(&drained.exclusive), vec![1, 2]);
    assert_eq!(ids(&drained.shared), vec![3, 4]);
    assert_eq!(
        drained.idle.iter().map(|d| d.id).collect::<Vec<_>>(),
        vec![5, 6]
    );
    for id in 1..7 {
        assert_eq!(pool.holding(id), None);
    }
    assert_eq!(pool.idle_len(), 0);
}

#[test]
fn devices_outside_the_pool_are_tracked() {
    let mut table = DeviceTable::new();
    let image_record = DeviceRecord {
        device: device(1),
        target: Target::Image {
            image_config: fs("/a"),
            image: image(8),
        },
    };
    match table.add_created(image_record) {
        DaemonResponse::DeviceCreated {
            dev_id,
            device_path,
        } => {
            assert_eq!(dev_id, 1);
            assert_eq!(device_path, fs("/dev/ublkb1"));
        }
        other => panic!("unexpected response: {other:?}"),
    }
    table.add_created(DeviceRecord {
        device: device(2),
        target: Target::Cow,
    });
    let mut pool = pool(2, false, 0);
    acquire(&mut pool, request("/p", AccessMode::Exclusive, 8), 8, 5).0.unwrap();
    acquire(&mut pool, request("/s", AccessMode::Shared, 8), 8, 6).0.unwrap();

    assert_eq!(table.restack_target(Some(&pool), 1).unwrap(), None);
    assert_eq!(
        table.restack_target(Some(&pool), 2).unwrap_err().message,
        "snapshot is only supported for overlaybd devices, not cow (dev_id=2)"
    );
    assert_eq!(
        table.restack_target(Some(&pool), 5).unwrap(),
        Some(fs("/p"))
    );
    assert_eq!(
        table.restack_target(Some(&pool), 6).unwrap(),
        Some(fs("/s"))
    );
    for found in [
        table.restack_target(None, 5),
        table.restack_target(Some(&pool), 9),
    ] {
        assert!(found
            .unwrap_err()
            .message
            .ends_with("not found for snapshot"));
    }

    assert_eq!(table.begin_delete(1).unwrap().device.id, 1);
    assert_eq!(
        table.begin_delete(1).unwrap_err().message,
        "device 1 not found"
    );
    assert_eq!(
        table.drain().iter().map(|d| d.id).collect::<Vec<_>>(),
        vec![2]
    );
    assert!(table.drain().is_empty());
}

#[test]
fn results_are_answered() {
    assert!(matches!(
        delete_finished(4, Ok(())).unwrap(),
        DaemonResponse::Deleted
    ));
    assert_eq!(
        delete_finished(4, Err(error("c"))).unwrap_err().message,
        "delete ublk device 4: c"
    );
    match restack_finished(4, &fs("/o"), Ok("{}".to_string())).unwrap() {
        DaemonResponse::RestackSnapshotCreated { descriptor } => assert_eq!(descriptor, "{}"),
        other => panic!("unexpected response: {other:?}"),
    }
    let terminal = DaemonError {
        class: ErrorClass::Terminal,
        message: "broken".to_string(),
    };
    let failed = restack_finished(4, &fs("/o"), Err(terminal)).unwrap_err();
    assert_eq!(
        failed.message,
        "restack overlaybd snapshot for dev_id=4 to /o: broken"
    );
    match respond(Err(failed)) {
        DaemonResponse::TerminalError { message } => assert!(message.ends_with("broken")),
        other => panic!("unexpected response: {other:?}"),
    }
    let invalid = DaemonError {
        class: ErrorClass::Invalid,
        message: "bad".to_string(),
    };
    assert!(matches!(
        respond(Err(invalid.context("outer"))),
        DaemonResponse::InvalidRequest { message } if message == "outer: bad"
    ));
    assert!(matches!(
        respond(Err(error("x"))),
        DaemonResponse::Error { message } if message == "x"
    ));
    assert!(matches!(
        respond(Ok(DaemonResponse::Released)),
        DaemonResponse::Released
    ));
}

#[test]
fn requests_are_dispatched() {
    let flags = |features| match dispatch(DaemonRequest::GetFeatures, features, None) {
        Call::Answer(DaemonResponse::Features { flags }) => flags,
        other => panic!("unexpected call: {other:?}"),
    };
    assert_eq!(flags(Some(5)), 5);
    assert_eq!(flags(None), 0);
    match dispatch(
        DaemonRequest::CreateCow {
            origin: fs("/o"),
            cow: fs("/c"),
        },
        None,
        None,
    ) {
        Call::CreateCow(config) => {
            assert_eq!(config.chunksize_kb, 32);
            assert!(!config.origin_dio && !config.cow_dio);
        }
        other => panic!("unexpected call: {other:?}"),
    }
    let tool = ResizeToolSpec {
        program: fs("/bin/resize"),
        timeout_secs: 120,
    };
    let runtime = DaemonRequest::CreateOverlaybdRuntimeDevice {
        source_image_config: fs("/src"),
        global_config: fs("/g"),
        runtime_dir: fs("/run"),
        read_only: true,
        runtime_upper_mode: UpperMode::Sparse,
        requested_virtual_size: Some(1),
        known_source_virtual_size: None,
        allow_shrink: true,
    };
    match dispatch(runtime, None, Some(tool)) {
        Call::CreateRuntime(request) => {
            assert_eq!(request.resize_tool.unwrap().timeout_secs, 120);
            assert!(request.read_only && request.allow_shrink);
        }
        other => panic!("unexpected call: {other:?}"),
    }
    assert!(matches!(
        dispatch(DaemonRequest::Shutdown, None, None),
        Call::Shutdown {
            answer: DaemonResponse::Done
        }
    ));
    match dispatch(
        DaemonRequest::NotifySandboxReady {
            device_key: "k".to_string(),
        },
        None,
        None,
    ) {
        Call::NotifyReady {
            device_key,
            answer: DaemonResponse::Done,
        } => assert_eq!(device_key, "k"),
        other => panic!("unexpected call: {other:?}"),
    }
    assert!(matches!(
        dispatch(DaemonRequest::ReleaseOverlaybd { dev_id: 3 }, Some(0), None),
        Call::Release { dev_id: 3 }
    ));
    for request in [
        DaemonRequest::ReleaseOverlaybd { dev_id: 3 },
        DaemonRequest::UpdateSize {
            dev_id: 3,
            new_sectors: 8,
        },
    ] {
        match dispatch(request, None, None) {
            Call::Refuse(error) => assert_eq!(error.message, "warm pool not enabled"),
            other => panic!("unexpected call: {other:?}"),
        }
    }
}

#[test]
fn acquires_and_releases_are_answered() {
    match acquire_answered(Ok(device(4))).unwrap() {
        DaemonResponse::DeviceAcquired {
            dev_id,
            device_path,
        } => {
            assert_eq!(dev_id, 4);
            assert_eq!(device_path, fs("/dev/ublkb4"));
        }
        other => panic!("unexpected answer: {other:?}"),
    }
    assert_eq!(acquire_answered(Err(error("c"))).unwrap_err().message, "c");
    assert!(matches!(
        release_answered(Ok(())).unwrap(),
        DaemonResponse::Released
    ));
    assert_eq!(release_answered(Err(error("c"))).unwrap_err().message, "c");
}

fn runtime_request() -> RuntimeDeviceRequest {
    RuntimeDeviceRequest {
        source_image_config: fs("/src"),
        global_config: fs("/g"),
        runtime_dir: fs("/run/x"),
        read_only: false,
        runtime_upper_mode: UpperMode::HybridLogStructured,
        requested_virtual_size: None,
        known_source_virtual_size: None,
        resize_tool: None,
        allow_shrink: false,
    }
}

fn runtime_image() -> RuntimeImage {
    RuntimeImage {
        image_config: fs("/run/x/image.json"),
        virtual_size: 4096,
    }
}

#[test]
fn runtime_device_is_rolled_back_on_failure() {
    let request = runtime_request();
    match runtime_laid_out(&request, true, Ok(runtime_image())) {
        RuntimeStep::Acquire { request, .. } => {
            assert_eq!(request.access_mode, AccessMode::Exclusive);
            assert_eq!(request.virtual_size, 4096);
            assert_eq!(request.image_config, fs("/run/x/image.json"));
        }
        other => panic!("unexpected step: {other:?}"),
    }
    assert!(matches!(
        runtime_laid_out(&request, false, Ok(runtime_image())),
        RuntimeStep::Create { .. }
    ));
    match runtime_laid_out(&request, true, Err(error("c"))) {
        RuntimeStep::Fail(error) => assert_eq!(
            error.message,
            "materialize overlaybd runtime in /run/x: c"
        ),
        other => panic!("unexpected step: {other:?}"),
    }
    match runtime_finished(runtime_image(), Ok(device(9))) {
        RuntimeEnd::Answer(DaemonResponse::OverlaybdRuntimeDeviceCreated {
            dev_id,
            actual_virtual_size,
            ..
        }) => {
            assert_eq!((dev_id, actual_virtual_size), (9, 4096));
        }
        other => panic!("unexpected end: {other:?}"),
    }
    match runtime_finished(runtime_image(), Err(error("c"))) {
        RuntimeEnd::Rollback(error) => assert_eq!(
            error.message,
            "create overlaybd runtime device from /run/x/image.json: c"
        ),
        other => panic!("unexpected end: {other:?}"),
    }
}

#[test]
fn error_numbers_are_those_of_the_system() {
    assert_eq!(ENODEV, libc::ENODEV);
    assert_eq!(EINVAL, libc::EINVAL);
    assert_eq!(ENOTTY, libc::ENOTTY);
    assert_eq!(EOPNOTSUPP, libc::EOPNOTSUPP);
}

fn run_cleanup(mut answer: impl FnMut(CleanupAction) -> CleanupEvent) -> (Vec<CleanupAction>, CleanupEnd) {
    let (mut state, mut action) = begin_cleanup();
    let mut seen = Vec::new();
    loop {
        if let CleanupAction::Finish(end) = action {
            assert_eq!(state, CleanupState::Finished);
            return (seen, end);
        }
        seen.push(action);
        let next = cleanup_step(state, answer(action));
        state = next.0;
        action = next.1;
    }
}

#[test]
fn failed_start_is_cleaned_up() {
    let gone = CleanupEvent::Failed {
        errno: Some(ENODEV),
    };
    let broken = CleanupEvent::Failed { errno: None };
    let (seen, end) = run_cleanup(|_| CleanupEvent::Succeeded);
    assert_eq!(end, CleanupEnd::Deleted);
    assert_eq!(
        seen,
        vec![
            CleanupAction::StopDevice,
            CleanupAction::WaitForWorkers { timeout_secs: 5 },
            CleanupAction::DropHandle,
            CleanupAction::OpenControl,
            CleanupAction::DeleteDevice
        ]
    );
    let (seen, end) = run_cleanup(|_| gone);
    assert_eq!(end, CleanupEnd::Disappeared);
    assert_eq!(
        seen,
        vec![CleanupAction::StopDevice, CleanupAction::DropHandle]
    );
    let (seen, end) = run_cleanup(|_| broken);
    assert_eq!(end, CleanupEnd::MayRemain);
    assert_eq!(seen.len(), 4);
    let on_delete = |event| {
        run_cleanup(move |action| {
            if action == CleanupAction::DeleteDevice {
                event
            } else {
                CleanupEvent::Succeeded
            }
        })
        .1
    };
    assert_eq!(on_delete(gone), CleanupEnd::AlreadyDeleted);
    assert_eq!(on_delete(broken), CleanupEnd::MayRemain);
}

#[test]
fn stop_waits_only_for_a_stopped_device() {
    let (state, action) = begin_stop();
    assert_eq!(action, StopAction::StopDevice);
    let (waiting, action) = stop_step(state, true);
    assert_eq!(action, StopAction::WaitForWorkers { timeout_secs: 5 });
    let (dropping, action) = stop_step(waiting, false);
    assert_eq!(action, StopAction::DropHandle);
    assert_eq!(stop_step(dropping, true).1, StopAction::DeleteDevice);
    assert_eq!(stop_step(state, false).1, StopAction::DropHandle);
}

#[test]
fn devices_come_up_stage_by_stage() {
    let mut stage = CreateStage::Service;
    let mut stages = vec![stage];
    while let Some(next) = stage.next() {
        stage = next;
        stages.push(stage);
    }
    assert_eq!(stages.len(), 7);
    let messages: Vec<(String, bool)> = stages
        .into_iter()
        .map(|stage| {
            let failed = create_failed(DeviceKind::Overlaybd, stage, &fs("/i"), error("c"));
            (failed.error.message, failed.cleanup)
        })
        .collect();
    assert_eq!(
        messages,
        vec![
            (
                "resolve image service for raw overlaybd device: c".to_string(),
                false
            ),
            ("open overlaybd image: /i: c".to_string(), false),
            ("create overlaybd target: c".to_string(), false),
            ("build ublk ctrl: c".to_string(), false),
            ("build ublk dev: c".to_string(), false),
            ("start ublk dev: c".to_string(), true),
            ("wait for ublk device: c".to_string(), true),
        ]
    );
    assert_eq!(
        create_failed(DeviceKind::Cow, CreateStage::Target, &fs("/i"), error("c"))
            .error
            .message,
        "create cow target: c"
    );
    assert_eq!(DeviceKind::Overlaybd.control_name(), "overlaybd-blk");
    assert_eq!(DeviceKind::Cow.control_name(), "cow-blk");
}

#[test]
fn missing_feature_query_means_no_features() {
    assert_eq!(detected_features(Ok(7)).unwrap(), 7);
    for errno in [ENOTTY, EINVAL, EOPNOTSUPP] {
        assert_eq!(
            detected_features(Err((Some(errno), error("c")))).unwrap(),
            0
        );
    }
    for errno in [None, Some(ENODEV)] {
        assert_eq!(
            detected_features(Err((errno, error("c")))).unwrap_err().message,
            "get ublk features: c"
        );
    }
}

#[test]
fn stale_socket_is_removed() {
    let socket = fs("/run/d.sock");
    let next = |step, event| serve_step(step, event, &socket);
    let failed = || ServeEvent::Failed(error("c"));
    assert_eq!(
        next(
            ServeStep::InspectSocket,
            ServeEvent::Occupied { answered: false }
        )
        .unwrap(),
        ServeStep::RemoveStale
    );
    assert_eq!(
        next(
            ServeStep::InspectSocket,
            ServeEvent::Occupied { answered: true }
        )
        .unwrap_err()
        .message,
        "daemon socket /run/d.sock is in use by another process"
    );
    let mut step = ServeStep::InspectSocket;
    let mut steps = Vec::new();
    while step != ServeStep::Done {
        steps.push(step);
        step = next(step, ServeEvent::Succeeded).unwrap();
    }
    assert_eq!(
        steps,
        vec![
            ServeStep::InspectSocket,
            ServeStep::Bind,
            ServeStep::SignalReady,
            ServeStep::Accept,
            ServeStep::StopDevices,
            ServeStep::RemoveSocket,
        ]
    );
    let cases = [
        (
            ServeStep::RemoveStale,
            "remove stale daemon socket: /run/d.sock: c",
        ),
        (ServeStep::Bind, "bind daemon socket: /run/d.sock: c"),
        (ServeStep::SignalReady, "c"),
        (ServeStep::Accept, "accept daemon connection: c"),
    ];
    for (step, message) in cases {
        assert_eq!(next(step, failed()).unwrap_err().message, message);
    }
    assert_eq!(
        next(ServeStep::RemoveSocket, failed()).unwrap(),
        ServeStep::Done
    );
}

#[test]
fn placeholder_for_builds_cached_same_size_images_per_virtual_size() {
    let mut table = PlaceholderTable::new(fs("/run/placeholders"));
    let virtual_size = 64 * 1024 * 1024;
    assert!(table.lookup(virtual_size).is_none());
    assert_eq!(table.dir(), fs("/run/placeholders"));
    assert_eq!(
        table.data_path(virtual_size),
        fs("/run/placeholders/67108864.data")
    );
    let config = table.config(virtual_size);
    assert!(config.lowers.is_empty());
    assert_eq!(config.upper_mode, UpperMode::Sparse);
    assert_eq!(config.upper_data, "/run/placeholders/67108864.data");

    let opened = |size: u64, handle: usize| OpenedImage {
        info: image(size / 512),
        handle,
    };
    let built = table.register(virtual_size, opened(virtual_size, 0));
    assert_eq!(built.image.info.sectors, virtual_size / 512);
    assert_eq!(built.config_path, fs("/run/placeholders/67108864.json"));
    let cached = table.lookup(virtual_size).unwrap();
    assert_eq!(cached.config_path, built.config_path);
    assert_eq!(cached.image, built.image);

    let small = table.register(8 * 1024 * 1024, opened(8 * 1024 * 1024, 1));
    let large = table.register(16 * 1024 * 1024, opened(16 * 1024 * 1024, 2));
    assert_ne!(small.config_path, large.config_path);
    assert_eq!(small.image.info.sectors, 8 * 1024 * 1024 / 512);
    assert_eq!(large.image.info.sectors, 16 * 1024 * 1024 / 512);
    let cached = table.lookup(virtual_size).unwrap();
    assert_eq!(cached.config_path, built.config_path);
    assert_eq!(cached.image, built.image);

    assert!(matches!(
        table.build_action(1, BuildStage::CreateDir),
        BuildAction::CreateDir { path } if path == fs("/run/placeholders")
    ));
    assert!(matches!(
        table.build_action(1, BuildStage::PrepareUpper),
        BuildAction::PrepareUpper { path, virtual_size: 1, mode: UpperMode::Sparse }
            if path == fs("/run/placeholders/1.data")
    ));
    assert!(matches!(
        table.build_action(1, BuildStage::Serialize),
        BuildAction::Serialize(config) if config.lowers.is_empty()
    ));
    assert!(matches!(
        table.build_action(1, BuildStage::WriteConfig),
        BuildAction::WriteConfig { path } if path == fs("/run/placeholders/1.json")
    ));
    assert!(matches!(
        table.build_action(1, BuildStage::OpenImage),
        BuildAction::OpenImage { path } if path == fs("/run/placeholders/1.json")
    ));

    let mut stage = BuildStage::CreateDir;
    let mut stages = 1;
    while let Some(next) = stage.next() {
        stage = next;
        stages += 1;
    }
    assert_eq!((stage, stages), (BuildStage::OpenImage, 5));
    let cases = [
        (
            BuildStage::CreateDir,
            "create pool placeholder dir /run/placeholders: c",
        ),
        (
            BuildStage::PrepareUpper,
            "create placeholder upper /run/placeholders/1.data: c",
        ),
        (
            BuildStage::Serialize,
            "serialize placeholder image config: c",
        ),
        (
            BuildStage::WriteConfig,
            "write placeholder config /run/placeholders/1.json: c",
        ),
        (
            BuildStage::OpenImage,
            "open placeholder image /run/placeholders/1.json: c",
        ),
    ];
    for (stage, message) in cases {
        assert_eq!(table.build_failed(1, stage, error("c")).message, message);
    }
}

#[test]
fn placeholder_files_are_beside_the_socket() {
    assert_eq!(
        pool_placeholder_dir(&fs("/run/aenv/ublk.sock"), &fs("/tmp")),
        fs("/run/aenv/overlaybd-pool-placeholders")
    );
    assert_eq!(
        pool_placeholder_dir(&fs("/"), &fs("/tmp")),
        fs("/tmp/overlaybd-pool-placeholders")
    );
}

#[test]
fn one_service_for_each_configuration() {
    let mut table = ServiceTable::new(&fs("/etc/global.json"), 1);
    assert_eq!(table.lookup(&fs("/etc//global.json")), Some(1));
    let other = known_as(None, &fs("/etc/mem.json"));
    assert_eq!(table.lookup(&other), None);
    table.register(&other, 2);
    assert_eq!(table.lookup(&other), Some(2));
    assert_eq!(table.lookup(&fs("/etc/global.json")), Some(1));
    assert_eq!(known_as(Some(fs("/real")), &fs("/link")), fs("/real"));
    assert_eq!(
        service_failed(&other, error("c")).message,
        "create ImageService from global config: /etc/mem.json: c"
    );
}

#[test]
fn shared_device_has_room_for_another_holder() {
    let mut state = pool(4, false, 0);
    let wanted = request("/img/a.json", AccessMode::Shared, 8);
    assert!(state.can_join(&wanted));
    state.finish_acquire(&wanted, image(8), device(3));
    assert!(state.can_join(&wanted));
    assert!(state.can_join(&request("/img/a.json", AccessMode::Exclusive, 8)));
    assert!(matches!(
        state.begin_acquire(&wanted, image(8)),
        AcquirePlan::Joined(joined) if joined.id == 3
    ));
}
