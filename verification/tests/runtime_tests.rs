use boxlite::command::BoxCommand;
use boxlite::error::ErrorKind;
use boxlite::ids::is_valid_box_id;
use boxlite::ids::ContainerId;
use boxlite::init::BoxMetricsStorage;
use boxlite::init::Disk;
use boxlite::init::GuestSession;
use boxlite::init::LiveState;
use boxlite::shim::ShimHandler;
use boxlite::vmm::DiskFormat;
use boxlite::vmm::Transport;
use boxlite::litebox::StartAction;
use boxlite::litebox::StopStep;
use boxlite::options::BoxOptions;
use boxlite::options::BoxliteOptions;
use boxlite::options::RootfsSpec;
use boxlite::runtime::BoxliteRuntime;
use boxlite::runtime::RemoveStep;
use boxlite::state::BoxStatus;

fn runtime() -> BoxliteRuntime {
    BoxliteRuntime::new(BoxliteOptions {
        home_dir: "/home/u/.boxlite".to_string(),
        image_registries: vec!["ghcr.io".to_string()],
    })
}

fn live(pid: u32) -> LiveState {
    LiveState::new(
        ShimHandler::from_child(pid, "B".to_string()),
        GuestSession::new(Transport::unix("/grpc.sock")),
        BoxMetricsStorage::new(),
        Disk {
            path: "/d".to_string(),
            format: DiskFormat::Qcow2,
            persistent: true,
        },
        None,
        None,
    )
}

fn options(auto_remove: bool) -> BoxOptions {
    let mut o = BoxOptions::default();
    o.auto_remove = auto_remove;
    o
}

#[test]
fn test_create_makes_a_configured_box() {
    let mut rt = runtime();
    let metrics = rt.metrics();
    let h = rt.create(options(false), Some("web".to_string()), 1000).unwrap();
    assert!(is_valid_box_id(h.id()));
    assert_eq!(h.name(), Some("web"));
    let info = rt.get_info("web").unwrap().unwrap();
    assert_eq!(info.id, h.id());
    assert_eq!(info.status, BoxStatus::Configured);
    assert_eq!(info.created_at, 1000);
    assert_eq!(info.pid, None);
    assert_eq!(metrics.boxes_created_total(), 1);
    let row = rt.manager().get_by_id_or_name(h.id()).unwrap().unwrap();
    assert_eq!(row.state.lock_id, Some(0));
    assert_eq!(row.state.status, BoxStatus::Configured);
    assert!(ContainerId::is_valid(row.config.container.id.as_str()));
    assert_eq!(row.config.box_home, format!("/home/u/.boxlite/boxes/{}", h.id()));
    assert_eq!(
        row.config.ready_socket_path,
        format!("/home/u/.boxlite/boxes/{}/sockets/ready.sock", h.id())
    );
    assert_eq!(
        row.config.transport.socket_file().unwrap(),
        format!("/home/u/.boxlite/boxes/{}/sockets/grpc.sock", h.id())
    );
    assert_eq!(rt.image_registries(), &vec!["ghcr.io".to_string()]);
    assert_eq!(rt.layout().home(), "/home/u/.boxlite");
    let second = rt.create(options(false), None, 2000).unwrap();
    assert_ne!(second.id(), h.id());
    assert_eq!(
        rt.manager()
            .get_by_id_or_name(second.id())
            .unwrap()
            .unwrap()
            .state
            .lock_id,
        Some(1)
    );
    assert_eq!(rt.list_info().len(), 2);
}

#[test]
fn test_second_box_of_a_name_already_exists() {
    let mut rt = runtime();
    rt.create(options(false), Some("web".to_string()), 1).unwrap();
    let err = rt
        .create(options(false), Some("web".to_string()), 2)
        .unwrap_err();
    assert_eq!(err.kind(), ErrorKind::AlreadyExists);
    assert_eq!(err.message(), "box with name 'web' already exists");
    assert_eq!(rt.list_info().len(), 1);
    assert_eq!(rt.metrics().boxes_created_total(), 1);
    assert!(rt.create(options(false), Some("Web".to_string()), 3).is_ok());
}

#[test]
fn test_create_refusals_come_in_order() {
    let mut rt = runtime();
    let cid = || ContainerId::parse(&"12".repeat(32)).unwrap();
    let mut bad = options(false);
    bad.rootfs = RootfsSpec::Image(String::new());
    let err = rt
        .create_with_ids(bad, Some("x".to_string()), "a/b".to_string(), cid(), 1)
        .unwrap_err();
    assert_eq!(err.kind(), ErrorKind::Config);
    assert!(err.message().starts_with("invalid options"));
    let err = rt
        .create_with_ids(options(false), None, "a/b".to_string(), cid(), 1)
        .unwrap_err();
    assert_eq!(err.kind(), ErrorKind::Config);
    assert!(err.message().starts_with("invalid identifier"));
    rt.create_with_ids(options(false), Some("n".to_string()), "ID1".to_string(), cid(), 1)
        .unwrap();
    let err = rt
        .create_with_ids(options(false), Some("n".to_string()), "ID1".to_string(), cid(), 1)
        .unwrap_err();
    assert_eq!(err.message(), "box with name 'n' already exists");
    let err = rt
        .create_with_ids(options(false), None, "ID1".to_string(), cid(), 1)
        .unwrap_err();
    assert_eq!(err.kind(), ErrorKind::AlreadyExists);
    assert_eq!(err.message(), "box with id 'ID1' already exists");
    rt.shutdown(None);
    let err = rt
        .create_with_ids(BoxOptions::default(), None, "a/b".to_string(), cid(), 1)
        .unwrap_err();
    assert_eq!(err.kind(), ErrorKind::Stopped);
    assert_eq!(err.message(), "runtime has been shut down");
}

#[test]
fn test_get_by_name_identifier_and_prefix() {
    let mut rt = runtime();
    let h = rt.create(options(false), Some("web".to_string()), 1).unwrap();
    let id = h.id().to_string();
    assert_eq!(rt.get("web").unwrap().unwrap().id(), id);
    assert_eq!(rt.get(&id).unwrap().unwrap().id(), id);
    assert_eq!(rt.get(&id[..12]).unwrap().unwrap().id(), id);
    assert!(rt.get(&id[..11]).unwrap().is_none());
    assert!(rt.get("nobody").unwrap().is_none());
    assert!(rt.get_info("nobody").unwrap().is_none());
    assert_eq!(rt.get_info(&id[..12]).unwrap().unwrap().id, id);
}

#[test]
fn test_stop_invalidates_the_handle_and_a_fresh_one_works() {
    let mut rt = runtime();
    let h = rt.create(options(false), Some("web".to_string()), 1).unwrap();
    let twin = rt.get("web").unwrap().unwrap();
    assert!(rt.exec(&h, BoxCommand::new("echo")).is_ok());
    assert!(rt.exec(&twin, BoxCommand::new("echo")).is_ok());
    assert!(matches!(rt.start(&h).unwrap(), StartAction::Build { .. }));

    let steps = rt.stop(&h, 50).unwrap();
    assert_eq!(steps.len(), 3);
    assert!(matches!(steps[1], StopStep::PersistState { .. }));
    assert_eq!(rt.metrics().boxes_stopped_total(), 1);

    for stale in [&h, &twin] {
        let e = rt.exec(stale, BoxCommand::new("echo")).unwrap_err();
        assert_eq!(e.kind(), ErrorKind::Stopped);
        assert_eq!(rt.start(stale).unwrap_err().kind(), ErrorKind::Stopped);
        assert_eq!(rt.stop(stale, 60).unwrap_err().kind(), ErrorKind::Stopped);
    }
    let info = rt.get_info("web").unwrap().unwrap();
    assert_eq!(info.status, BoxStatus::Stopped);
    assert_eq!(info.last_updated, 50);

    let fresh = rt.get(h.id()).unwrap().unwrap();
    let sent = rt.exec(&fresh, BoxCommand::new("echo")).unwrap();
    assert_eq!(sent.program, "echo");
    assert!(matches!(rt.start(&fresh).unwrap(), StartAction::Build { .. }));
    assert!(rt.stop(&fresh, 70).unwrap().is_empty());
    assert!(rt.exec(&fresh, BoxCommand::new("echo")).is_ok());
    assert_eq!(rt.exec(&h, BoxCommand::new("echo")).unwrap_err().kind(), ErrorKind::Stopped);
}

#[test]
fn test_stop_removes_a_box_that_asked_for_it() {
    let mut rt = runtime();
    let h = rt.create(options(true), Some("tmp".to_string()), 1).unwrap();
    let steps = rt.stop(&h, 5).unwrap();
    assert!(matches!(steps.last().unwrap(), StopStep::Remove { id } if id == h.id()));
    assert!(rt.get("tmp").unwrap().is_none());
    assert!(rt.get(h.id()).unwrap().is_none());
    assert_eq!(rt.list_info().len(), 0);
    assert!(rt.create(options(true), Some("tmp".to_string()), 6).is_ok());
}

#[test]
fn test_remove_twice_is_not_found() {
    let mut rt = runtime();
    let h = rt.create(options(false), Some("web".to_string()), 1).unwrap();
    let id = h.id().to_string();
    let steps = rt.remove(&id, false).unwrap();
    assert_eq!(steps.len(), 2);
    assert!(matches!(&steps[0], RemoveStep::DeleteRow { id: row } if *row == id));
    assert!(matches!(&steps[1], RemoveStep::RemoveDirectory { path }
        if *path == format!("/home/u/.boxlite/boxes/{}", id)));
    let before = rt.list_info().len();
    let err = rt.remove(&id, false).unwrap_err();
    assert_eq!(err.kind(), ErrorKind::NotFound);
    assert_eq!(err.message(), format!("box not found: {}", id));
    assert_eq!(rt.list_info().len(), before);
    assert_eq!(rt.remove("web", true).unwrap_err().kind(), ErrorKind::NotFound);
    assert_eq!(rt.exec(&h, BoxCommand::new("x")).unwrap_err().kind(), ErrorKind::Stopped);
    assert!(rt.get(&id).unwrap().is_none());
    assert_eq!(rt.metrics().boxes_created_total(), 1);
}

#[test]
fn test_remove_of_a_running_box_needs_force() {
    let mut rt = runtime();
    let metrics = rt.metrics();
    let h = rt.create(options(false), Some("web".to_string()), 1).unwrap();
    rt.started(&h, live(4242), 2).unwrap();
    let info = rt.get_info("web").unwrap().unwrap();
    assert_eq!(info.status, BoxStatus::Running);
    assert_eq!(info.pid, Some(4242));
    assert!(matches!(rt.start(&h).unwrap(), StartAction::Nothing));

    let err = rt.remove("web", false).unwrap_err();
    assert_eq!(err.kind(), ErrorKind::InvalidState);
    assert_eq!(
        err.message(),
        format!("cannot remove running box {}; stop it first or use force", h.id())
    );
    assert!(rt.get_info("web").unwrap().is_some());
    assert!(rt.exec(&h, BoxCommand::new("x")).is_ok());

    let steps = rt.remove("web", true).unwrap();
    assert_eq!(steps.len(), 3);
    assert!(matches!(steps[0], RemoveStep::StopMachine { pid: 4242 }));
    assert!(matches!(steps[1], RemoveStep::DeleteRow { .. }));
    assert!(matches!(steps[2], RemoveStep::RemoveDirectory { .. }));
    assert!(rt.get_info("web").unwrap().is_none());
    assert_eq!(rt.exec(&h, BoxCommand::new("x")).unwrap_err().kind(), ErrorKind::Stopped);
    assert_eq!(metrics.boxes_created_total(), 1);
}

#[test]
fn test_stop_of_a_running_box_through_the_runtime() {
    let mut rt = runtime();
    let h = rt.create(options(false), None, 1).unwrap();
    rt.started(&h, live(77), 2).unwrap();
    let plan = rt.shutdown(Some(5));
    assert_eq!(plan.box_ids, vec![h.id().to_string()]);
    assert_eq!(plan.limit_ms, Some(5000));
    let steps = rt.stop(&h, 9).unwrap();
    assert_eq!(steps.len(), 5);
    assert!(matches!(steps[0], StopStep::ShutdownGuest));
    assert!(matches!(steps[1], StopStep::StopMachine { pid: 77 }));
    let info = rt.get_info(h.id()).unwrap().unwrap();
    assert_eq!(info.status, BoxStatus::Stopped);
    assert_eq!(info.pid, None);
    let stale = rt.started(&h, live(78), 10).unwrap_err();
    assert_eq!(stale.kind(), ErrorKind::Stopped);
    rt.record_exec(&h, true);
    assert_eq!(rt.metrics().total_commands_executed(), 0);
    let fresh = rt.get(h.id()).unwrap().unwrap();
    rt.record_exec(&fresh, true);
    assert_eq!(rt.metrics().total_commands_executed(), 1);
    assert_eq!(rt.metrics().total_exec_errors(), 1);
}

#[test]
fn test_shutdown_plan() {
    let mut rt = runtime();
    rt.create(options(false), None, 1).unwrap();
    let plan = rt.shutdown(None);
    assert_eq!(plan.limit_ms, Some(10_000));
    assert!(plan.box_ids.is_empty());
    assert!(rt.is_shut_down());
    assert_eq!(rt.create(options(false), None, 2).unwrap_err().kind(), ErrorKind::Stopped);
    assert_eq!(rt.shutdown(Some(-1)).limit_ms, None);
    assert_eq!(rt.shutdown(Some(-7)).limit_ms, None);
    assert_eq!(rt.shutdown(Some(0)).limit_ms, Some(0));
    assert_eq!(rt.shutdown(Some(3)).limit_ms, Some(3_000));
    assert_eq!(rt.shutdown(Some(i32::MAX)).limit_ms, Some(2_147_483_647_000));
    assert_eq!(rt.list_info().len(), 1);
}
