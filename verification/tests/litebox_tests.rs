use boxlite::command::BoxCommand;
use boxlite::config::BoxConfig;
use boxlite::config::ContainerRuntimeConfig;
use boxlite::error::ErrorKind;
use boxlite::ids::ContainerId;
use boxlite::init::BoxMetricsStorage;
use boxlite::init::Disk;
use boxlite::init::GuestSession;
use boxlite::init::LiveState;
use boxlite::litebox::BoxImpl;
use boxlite::litebox::StartAction;
use boxlite::litebox::StopStep;
use boxlite::metrics::RuntimeMetrics;
use boxlite::metrics::RuntimeMetricsStorage;
use boxlite::options::BoxOptions;
use boxlite::options::RootfsSpec;
use boxlite::shim::ShimHandler;
use boxlite::state::BoxState;
use boxlite::state::BoxStatus;
use boxlite::vmm::DiskFormat;
use boxlite::vmm::Transport;
use boxlite::vmm::VmmKind;

fn config(name: Option<&str>, auto_remove: bool, workdir: Option<&str>) -> BoxConfig {
    let mut options = BoxOptions::default();
    options.auto_remove = auto_remove;
    options.working_dir = workdir.map(|w| w.to_string());
    BoxConfig {
        id: "01HJK4TNRPQSXYZ8WM6NCVT9R5".to_string(),
        name: name.map(|n| n.to_string()),
        created_at: 1,
        container: ContainerRuntimeConfig {
            id: ContainerId::parse(&"cd".repeat(32)).unwrap(),
            image: RootfsSpec::Image("alpine:latest".to_string()),
            image_config: None,
        },
        options,
        engine_kind: VmmKind::Libkrun,
        transport: Transport::unix("/tmp/box/sockets/grpc.sock"),
        box_home: "/tmp/box".to_string(),
        ready_socket_path: "/tmp/box/sockets/ready.sock".to_string(),
    }
}

fn live(pid: u32) -> LiveState {
    LiveState::new(
        ShimHandler::from_child(pid, "B".to_string()),
        GuestSession::new(Transport::unix("/grpc.sock")),
        BoxMetricsStorage::new(),
        Disk {
            path: "/d".to_string(),
            format: DiskFormat::Qcow2,
            persistent: true,
        },
        None,
        None,
    )
}

fn state_in(status: BoxStatus, lock_id: Option<u64>) -> BoxState {
    let mut state = BoxState::new_at(10);
    state.status = status;
    state.lock_id = lock_id;
    state
}

#[test]
fn test_info_is_a_pure_read() {
    let b = BoxImpl::new(config(Some("web"), false, None), state_in(BoxStatus::Configured, Some(1)));
    let info = b.info();
    assert_eq!(info.id, "01HJK4TNRPQSXYZ8WM6NCVT9R5");
    assert_eq!(info.name.as_deref(), Some("web"));
    assert_eq!(info.status, BoxStatus::Configured);
    assert_eq!(info.cpus, 2);
    assert_eq!(info.memory_mib, 512);
    assert_eq!(b.id(), "01HJK4TNRPQSXYZ8WM6NCVT9R5");
    assert_eq!(b.name(), Some("web"));
    assert_eq!(b.container_id(), "cd".repeat(32));
    assert!(b.live().is_none());
    assert!(!b.is_invalidated());
    assert_eq!(b.state().status, BoxStatus::Configured);
    assert_eq!(b.config().box_home, "/tmp/box");
}

#[test]
fn test_exec_injects_the_container_and_the_working_directory() {
    let b = BoxImpl::new(
        config(None, false, Some("/work")),
        state_in(BoxStatus::Configured, Some(1)),
    );
    let sent = b.exec(BoxCommand::new("echo").args(&["hello".to_string()])).unwrap();
    assert_eq!(sent.program, "echo");
    assert_eq!(sent.args, vec!["hello".to_string()]);
    assert_eq!(
        sent.env,
        Some(vec![("BOXLITE_CONTAINER".to_string(), "cd".repeat(32))])
    );
    assert_eq!(sent.working_dir.as_deref(), Some("/work"));
    assert!(!sent.tty);

    let own = BoxCommand::new("sh")
        .env("A", "1")
        .env("BOXLITE_CONTAINER", "mine")
        .working_dir("/own")
        .tty(true);
    let sent = b.exec(own).unwrap();
    assert_eq!(
        sent.env,
        Some(vec![
            ("A".to_string(), "1".to_string()),
            ("BOXLITE_CONTAINER".to_string(), "mine".to_string())
        ])
    );
    assert_eq!(sent.working_dir.as_deref(), Some("/own"));
    assert!(sent.tty);

    let plain = BoxImpl::new(config(None, false, None), state_in(BoxStatus::Running, Some(1)));
    let sent = plain.exec(BoxCommand::new("ls").env("B", "2")).unwrap();
    assert_eq!(
        sent.env,
        Some(vec![
            ("B".to_string(), "2".to_string()),
            ("BOXLITE_CONTAINER".to_string(), "cd".repeat(32))
        ])
    );
    assert_eq!(sent.working_dir, None);
}

#[test]
fn test_start_decisions() {
    for status in [BoxStatus::Configured, BoxStatus::Stopped] {
        let b = BoxImpl::new(config(None, false, None), state_in(status, Some(1)));
        match b.start().unwrap() {
            StartAction::Build { plan } => assert_eq!(plan.stages().len(), 5),
            StartAction::Nothing => panic!("a box that does not run must be built"),
        }
    }
    let attached = BoxImpl::new(config(None, false, None), state_in(BoxStatus::Running, Some(1)));
    match attached.start().unwrap() {
        StartAction::Build { plan } => assert_eq!(plan.stages().len(), 2),
        StartAction::Nothing => panic!("a box that runs elsewhere must be attached to"),
    }
    for status in [BoxStatus::Starting, BoxStatus::Stopping, BoxStatus::Unknown] {
        let b = BoxImpl::new(config(None, false, None), state_in(status, Some(1)));
        assert_eq!(b.start().unwrap_err().kind(), ErrorKind::InvalidState);
    }
    let mut running = BoxImpl::new(config(None, false, None), state_in(BoxStatus::Configured, Some(1)));
    running.started(live(77), 50);
    assert_eq!(running.state().status, BoxStatus::Running);
    assert_eq!(running.state().pid, Some(77));
    assert_eq!(running.state().last_updated, 50);
    assert_eq!(running.state().lock_id, Some(1));
    assert!(matches!(running.start().unwrap(), StartAction::Nothing));
}

#[test]
fn test_stop_of_a_running_box() {
    let mut b = BoxImpl::new(config(Some("web"), true, None), state_in(BoxStatus::Configured, Some(4)));
    b.started(live(77), 20);
    let steps = b.stop(30).unwrap();
    assert_eq!(steps.len(), 6);
    assert!(matches!(steps[0], StopStep::ShutdownGuest));
    assert!(matches!(steps[1], StopStep::StopMachine { pid: 77 }));
    assert!(matches!(steps[2], StopStep::DeletePidFile));
    match &steps[3] {
        StopStep::PersistState { state, fresh_row } => {
            assert_eq!(state.status, BoxStatus::Stopped);
            assert_eq!(state.pid, None);
            assert_eq!(state.last_updated, 30);
            assert_eq!(state.lock_id, Some(4));
            assert!(!fresh_row);
        }
        other => panic!("unexpected step {:?}", other),
    }
    assert!(matches!(&steps[4], StopStep::InvalidateCache { id, name }
        if id == "01HJK4TNRPQSXYZ8WM6NCVT9R5" && name.as_deref() == Some("web")));
    assert!(matches!(&steps[5], StopStep::Remove { id } if id == "01HJK4TNRPQSXYZ8WM6NCVT9R5"));
    assert!(b.is_invalidated());
    assert!(b.live().is_none());
    assert_eq!(b.state().status, BoxStatus::Stopped);
}

#[test]
fn test_stop_of_a_box_that_never_started() {
    let mut b = BoxImpl::new(config(None, false, None), state_in(BoxStatus::Configured, None));
    let steps = b.stop(30).unwrap();
    assert_eq!(steps.len(), 3);
    assert!(matches!(steps[0], StopStep::DeletePidFile));
    assert!(matches!(steps[1], StopStep::PersistState { fresh_row: true, .. }));
    assert!(matches!(steps[2], StopStep::InvalidateCache { .. }));
    assert_eq!(b.state().status, BoxStatus::Stopped);
}

#[test]
fn test_stop_of_a_stopped_box_needs_nothing() {
    let mut b = BoxImpl::new(config(None, true, None), state_in(BoxStatus::Stopped, Some(1)));
    assert!(b.stop(30).unwrap().is_empty());
    assert!(!b.is_invalidated());
    assert_eq!(b.state().last_updated, 10);
    let mut unknown = BoxImpl::new(config(None, true, None), state_in(BoxStatus::Unknown, Some(1)));
    assert!(unknown.stop(30).unwrap().is_empty());
    assert_eq!(unknown.state().status, BoxStatus::Stopped);
    assert_eq!(unknown.state().last_updated, 30);
    for status in [BoxStatus::Starting, BoxStatus::Stopping] {
        let mut b = BoxImpl::new(config(None, false, None), state_in(status, Some(1)));
        assert_eq!(b.stop(30).unwrap_err().kind(), ErrorKind::InvalidState);
        assert_eq!(b.state().status, status);
        assert!(!b.is_invalidated());
    }
}

#[test]
fn test_every_call_on_a_stopped_handle_fails_with_stopped() {
    let mut b = BoxImpl::new(config(None, false, None), state_in(BoxStatus::Configured, Some(1)));
    b.started(live(77), 20);
    assert!(b.check_metrics().is_ok());
    assert!(b.check_copy("/data").is_ok());
    b.stop(30).unwrap();
    let expected = "handle invalidated by stop; get a new handle from the runtime";
    let e = b.exec(BoxCommand::new("echo")).unwrap_err();
    assert_eq!(e.kind(), ErrorKind::Stopped);
    assert_eq!(e.message(), expected);
    let e = b.start().unwrap_err();
    assert_eq!(e.kind(), ErrorKind::Stopped);
    let e = b.check_metrics().unwrap_err();
    assert_eq!(e.kind(), ErrorKind::Stopped);
    let e = b.check_copy("/data").unwrap_err();
    assert_eq!(e.kind(), ErrorKind::Stopped);
    assert!(b.stop(40).unwrap().is_empty());
    assert_eq!(b.info().status, BoxStatus::Stopped);
}

#[test]
fn test_copy_needs_a_destination() {
    let b = BoxImpl::new(config(None, false, None), state_in(BoxStatus::Running, Some(1)));
    let e = b.check_copy("").unwrap_err();
    assert_eq!(e.kind(), ErrorKind::Config);
    assert_eq!(e.message(), "destination path must not be empty");
}

#[test]
fn test_record_exec_counts_in_box_and_runtime() {
    let storage = RuntimeMetricsStorage::new();
    let metrics = RuntimeMetrics::new(storage.clone());
    let mut b = BoxImpl::new(config(None, false, None), state_in(BoxStatus::Configured, Some(1)));
    b.started(live(77), 20);
    b.record_exec(&storage, false);
    b.record_exec(&storage, true);
    assert_eq!(metrics.total_commands_executed(), 2);
    assert_eq!(metrics.total_exec_errors(), 1);
    let l = b.live().as_ref().unwrap();
    assert_eq!(l.metrics.commands_executed_total(), 2);
    assert_eq!(l.metrics.exec_errors_total(), 1);
}
