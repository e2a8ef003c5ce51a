use boxlite::config::BoxConfig;
use boxlite::config::ContainerRuntimeConfig;
use boxlite::error::ErrorKind;
use boxlite::ids::ContainerId;
use boxlite::init::box_metrics_from_pipeline;
use boxlite::init::get_execution_plan;
use boxlite::init::BoxBuilder;
use boxlite::init::BoxMetricsStorage;
use boxlite::init::BuildMode;
use boxlite::init::BuildProducts;
use boxlite::init::CleanupAction;
use boxlite::init::CleanupGuard;
use boxlite::init::Disk;
use boxlite::init::GuestSession;
use boxlite::init::Resource;
use boxlite::options::BoxOptions;
use boxlite::options::RootfsSpec;
use boxlite::pipeline::InitTask;
use boxlite::pipeline::PipelineMetrics;
use boxlite::pipeline::StageKind;
use boxlite::shim::ShimHandler;
use boxlite::state::BoxState;
use boxlite::state::BoxStatus;
use boxlite::vmm::DiskFormat;
use boxlite::vmm::Transport;
use boxlite::vmm::VmmKind;

fn sample_config() -> BoxConfig {
    BoxConfig {
        id: "01HJK4TNRPQSXYZ8WM6NCVT9R5".to_string(),
        name: None,
        created_at: 1,
        container: ContainerRuntimeConfig {
            id: ContainerId::parse(&"ab".repeat(32)).unwrap(),
            image: RootfsSpec::Image("alpine:latest".to_string()),
            image_config: None,
        },
        options: BoxOptions::default(),
        engine_kind: VmmKind::Libkrun,
        transport: Transport::unix("/tmp/box/sockets/grpc.sock"),
        box_home: "/tmp/box".to_string(),
        ready_socket_path: "/tmp/box/sockets/ready.sock".to_string(),
    }
}

fn state_in(status: BoxStatus) -> BoxState {
    let mut state = BoxState::new_at(5);
    state.status = status;
    state
}

fn shape(status: BoxStatus) -> Vec<(StageKind, Vec<InitTask>)> {
    get_execution_plan(status)
        .unwrap()
        .stages()
        .iter()
        .map(|s| (s.kind, s.tasks.clone()))
        .collect()
}

#[test]
fn test_plans_by_status() {
    let full = vec![
        (StageKind::Sequential, vec![InitTask::Filesystem]),
        (
            StageKind::Parallel,
            vec![InitTask::ContainerRootfs, InitTask::GuestRootfs],
        ),
        (StageKind::Sequential, vec![InitTask::VmmSpawn]),
        (StageKind::Sequential, vec![InitTask::GuestConnect]),
        (StageKind::Sequential, vec![InitTask::GuestInit]),
    ];
    assert_eq!(shape(BoxStatus::Configured), full);
    assert_eq!(shape(BoxStatus::Stopped), full);
    assert_eq!(
        shape(BoxStatus::Running),
        vec![
            (StageKind::Sequential, vec![InitTask::VmmAttach]),
            (StageKind::Sequential, vec![InitTask::GuestConnect]),
        ]
    );
    for status in [BoxStatus::Starting, BoxStatus::Stopping, BoxStatus::Unknown] {
        let err = get_execution_plan(status).unwrap_err();
        assert_eq!(err.kind(), ErrorKind::InvalidState);
    }
    assert_eq!(
        get_execution_plan(BoxStatus::Stopping).unwrap_err().message(),
        "cannot start a box that is stopping"
    );
    assert_eq!(get_execution_plan(BoxStatus::Running).unwrap().stages().len(), 2);
}

#[test]
fn test_task_names() {
    assert_eq!(InitTask::Filesystem.name(), "filesystem_setup");
    assert_eq!(InitTask::ContainerRootfs.name(), "container_rootfs_prep");
    assert_eq!(InitTask::GuestRootfs.name(), "guest_rootfs_init");
    assert_eq!(InitTask::VmmSpawn.name(), "vmm_spawn");
    assert_eq!(InitTask::VmmAttach.name(), "vmm_attach");
    assert_eq!(InitTask::GuestConnect.name(), "guest_connect");
    assert_eq!(InitTask::GuestInit.name(), "guest_init");
}

#[test]
fn test_pipeline_metrics_keep_the_last_duration() {
    let mut metrics = PipelineMetrics::new();
    assert_eq!(metrics.task_duration_ms("vmm_spawn"), None);
    metrics.record("vmm_spawn", 10);
    metrics.record("guest_init", 20);
    metrics.record("vmm_spawn", 30);
    assert_eq!(metrics.task_duration_ms("vmm_spawn"), Some(30));
    assert_eq!(metrics.task_duration_ms("guest_init"), Some(20));
    assert_eq!(metrics.task_duration_ms("guest"), None);
    assert_eq!(PipelineMetrics::default().task_duration_ms("x"), None);
}

#[test]
fn test_box_metrics_from_pipeline() {
    let mut record = PipelineMetrics::new();
    record.record("filesystem_setup", 1);
    record.record("container_rootfs_prep", 2);
    record.record("guest_rootfs_init", 3);
    record.record("vmm_spawn", 4);
    record.record("guest_connect", 5);
    record.record("guest_init", 6);
    let metrics = box_metrics_from_pipeline(&record);
    assert_eq!(metrics.timings.filesystem_setup_ms, Some(1));
    assert_eq!(metrics.timings.image_prepare_ms, Some(2));
    assert_eq!(metrics.timings.guest_rootfs_ms, Some(3));
    assert_eq!(metrics.timings.box_spawn_ms, Some(4));
    assert_eq!(metrics.timings.container_init_ms, Some(6));
    assert_eq!(metrics.timings.total_create_ms, None);

    record.record("vmm_attach", 9);
    assert_eq!(box_metrics_from_pipeline(&record).timings.box_spawn_ms, Some(9));

    let empty = box_metrics_from_pipeline(&PipelineMetrics::new());
    assert_eq!(empty.timings, BoxMetricsStorage::new().timings);
    assert_eq!(empty.timings.box_spawn_ms, None);
}

#[test]
fn test_box_counters_are_shared_between_copies() {
    let mut a = BoxMetricsStorage::new();
    let b = a.clone();
    a.increment_commands_executed();
    a.increment_commands_executed();
    b.increment_exec_errors();
    assert_eq!(b.commands_executed_total(), 2);
    assert_eq!(a.exec_errors_total(), 1);
    a.set_total_create_duration(77);
    assert_eq!(a.timings.total_create_ms, Some(77));
}

#[test]
fn test_cleanup_guard_releases_in_reverse_order() {
    let mut guard = CleanupGuard::new();
    assert!(guard.is_armed());
    guard.track(Resource::Directory { path: "/box".to_string() });
    guard.track(Resource::DiskImage { path: "/box/root.qcow2".to_string() });
    guard.track(Resource::Mount { target: "/box/mounts".to_string() });
    guard.set_handler(ShimHandler::from_child(44, "BOX".to_string()));
    let actions = guard.release();
    assert_eq!(actions.len(), 4);
    assert!(matches!(actions[0], CleanupAction::StopMachine { pid: 44 }));
    assert!(matches!(&actions[1], CleanupAction::Release { resource: Resource::Mount { target } } if target == "/box/mounts"));
    assert!(matches!(&actions[2], CleanupAction::Release { resource: Resource::DiskImage { path } } if path == "/box/root.qcow2"));
    assert!(matches!(&actions[3], CleanupAction::Release { resource: Resource::Directory { path } } if path == "/box"));
}

#[test]
fn test_cleanup_guard_leaves_an_attached_machine_running() {
    let mut guard = CleanupGuard::new();
    guard.track(Resource::Socket { path: "/s".to_string() });
    guard.set_handler(ShimHandler::from_pid(44, "BOX".to_string()));
    let actions = guard.release();
    assert_eq!(actions.len(), 1);
    assert!(matches!(&actions[0], CleanupAction::Release { resource: Resource::Socket { path } } if path == "/s"));
}

#[test]
fn test_disarmed_guard_releases_nothing() {
    let mut guard = CleanupGuard::new();
    guard.track(Resource::Directory { path: "/box".to_string() });
    guard.set_handler(ShimHandler::from_child(44, "BOX".to_string()));
    guard.disarm();
    assert!(!guard.is_armed());
    assert!(guard.release().is_empty());

    let mut taken = CleanupGuard::new();
    taken.set_handler(ShimHandler::from_child(1, "B".to_string()));
    assert_eq!(taken.take_handler().unwrap().pid(), 1);
    assert!(taken.take_handler().is_none());
    assert!(taken.release().is_empty());
    assert!(CleanupGuard::new().release().is_empty());
}

#[test]
fn test_builder_refuses_invalid_options() {
    let mut config = sample_config();
    config.options.rootfs = RootfsSpec::Image(String::new());
    let err = BoxBuilder::new(config, state_in(BoxStatus::Configured)).err().unwrap();
    assert_eq!(err.kind(), ErrorKind::Config);
    let mut config = sample_config();
    config.options.cpus = Some(0);
    assert!(BoxBuilder::new(config, state_in(BoxStatus::Configured)).is_err());
}

#[test]
fn test_builder_modes() {
    let modes = [
        (BoxStatus::Configured, false, false),
        (BoxStatus::Stopped, true, false),
        (BoxStatus::Running, false, true),
    ];
    for (status, reuse_rootfs, skip_guest_wait) in modes {
        let builder = BoxBuilder::new(sample_config(), state_in(status)).unwrap();
        assert_eq!(builder.status(), status);
        assert_eq!(
            builder.mode(),
            BuildMode {
                reuse_rootfs,
                skip_guest_wait
            }
        );
        assert!(builder.plan().is_ok());
    }
    let builder = BoxBuilder::new(sample_config(), state_in(BoxStatus::Unknown)).unwrap();
    assert_eq!(builder.plan().unwrap_err().kind(), ErrorKind::InvalidState);
}

fn products(session: bool, disk: bool) -> BuildProducts {
    BuildProducts {
        guest_session: if session {
            Some(GuestSession::new(Transport::unix("/grpc.sock")))
        } else {
            None
        },
        container_disk: if disk {
            Some(Disk {
                path: "/tmp/box/disk.qcow2".to_string(),
                format: DiskFormat::Qcow2,
                persistent: false,
            })
        } else {
            None
        },
        guest_disk: Some(Disk {
            path: "/tmp/box/guest.raw".to_string(),
            format: DiskFormat::Raw,
            persistent: false,
        }),
        bind_mount: None,
    }
}

#[test]
fn test_build_gathers_what_the_stages_left() {
    let builder = BoxBuilder::new(sample_config(), state_in(BoxStatus::Configured)).unwrap();
    let mut guard = CleanupGuard::new();
    guard.track(Resource::Directory { path: "/tmp/box".to_string() });
    guard.set_handler(ShimHandler::from_child(99, "B".to_string()));
    let mut record = PipelineMetrics::new();
    record.record("vmm_spawn", 12);
    let live = builder
        .build(&mut guard, products(true, true), &record, 1234)
        .ok()
        .unwrap();
    assert_eq!(live.handler.pid(), 99);
    assert_eq!(live.guest_session.transport.socket_file(), Some("/grpc.sock"));
    assert_eq!(live.metrics.timings.box_spawn_ms, Some(12));
    assert_eq!(live.metrics.timings.total_create_ms, Some(1234));
    assert_eq!(live.container_rootfs_disk.path, "/tmp/box/disk.qcow2");
    assert_eq!(live.guest_rootfs_disk.unwrap().path, "/tmp/box/guest.raw");
    assert!(live.bind_mount.is_none());
    assert!(!guard.is_armed());
    assert!(guard.release().is_empty());
}

#[test]
fn test_build_of_a_running_box_takes_the_disk_it_was_started_on() {
    let builder = BoxBuilder::new(sample_config(), state_in(BoxStatus::Running)).unwrap();
    let mut guard = CleanupGuard::new();
    guard.set_handler(ShimHandler::from_pid(7, "B".to_string()));
    let live = builder
        .build(&mut guard, products(true, false), &PipelineMetrics::new(), 5)
        .ok()
        .unwrap();
    assert_eq!(live.container_rootfs_disk.path, "/tmp/box/root.qcow2");
    assert_eq!(live.container_rootfs_disk.format, DiskFormat::Qcow2);
    assert!(live.container_rootfs_disk.persistent);
    assert!(live.guest_rootfs_disk.is_none());
}

#[test]
fn test_build_reports_what_a_stage_owes() {
    let builder = BoxBuilder::new(sample_config(), state_in(BoxStatus::Configured)).unwrap();
    let mut guard = CleanupGuard::new();
    guard.track(Resource::Directory { path: "/tmp/box".to_string() });
    let err = builder
        .build(&mut guard, products(true, true), &PipelineMetrics::new(), 0)
        .err()
        .unwrap();
    assert_eq!(err.kind(), ErrorKind::Internal);
    assert_eq!(err.message(), "handler was not set");
    assert!(guard.is_armed());
    assert_eq!(guard.release().len(), 1);

    let builder = BoxBuilder::new(sample_config(), state_in(BoxStatus::Stopped)).unwrap();
    let mut guard = CleanupGuard::new();
    guard.set_handler(ShimHandler::from_child(1, "B".to_string()));
    let err = builder
        .build(&mut guard, products(false, true), &PipelineMetrics::new(), 0)
        .err()
        .unwrap();
    assert_eq!(err.message(), "guest_connect task must run first");
    assert!(!guard.is_armed());

    let builder = BoxBuilder::new(sample_config(), state_in(BoxStatus::Stopped)).unwrap();
    let mut guard = CleanupGuard::new();
    guard.set_handler(ShimHandler::from_child(1, "B".to_string()));
    let err = builder
        .build(&mut guard, products(true, false), &PipelineMetrics::new(), 0)
        .err()
        .unwrap();
    assert_eq!(err.message(), "rootfs task must run first");
}
