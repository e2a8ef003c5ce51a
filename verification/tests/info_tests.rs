use boxlite::cli::CreateArgs;
use boxlite::cli::GlobalFlags;
use boxlite::cli::HostPathStep;
use boxlite::cli::ListArgs;
use boxlite::cli::ManagementFlags;
use boxlite::cli::PublishFlags;
use boxlite::cli::ResourceFlags;
use boxlite::cli::Shell;
use boxlite::cli::VolumeFlags;
use boxlite::config::BoxConfig;
use boxlite::config::ContainerRuntimeConfig;
use boxlite::error::BoxliteError;
use boxlite::error::ErrorKind;
use boxlite::ids::ContainerId;
use boxlite::info::BoxInfo;
use boxlite::info::JsBoxInfo;
use boxlite::options::BoxOptions;
use boxlite::options::BoxliteOptions;
use boxlite::options::PortProtocol;
use boxlite::options::RootfsSpec;
use boxlite::state::BoxState;
use boxlite::state::BoxStatus;
use boxlite::vmm::Transport;
use boxlite::vmm::VmmKind;

fn config(image: RootfsSpec, cpus: Option<u8>, memory: Option<u32>) -> BoxConfig {
    let mut options = BoxOptions::default();
    options.cpus = cpus;
    options.memory_mib = memory;
    BoxConfig {
        id: "01HJK4TNRPQSXYZ8WM6NCVT9R5".to_string(),
        name: None,
        created_at: 1_700_000_000_000,
        container: ContainerRuntimeConfig {
            id: ContainerId::new(),
            image,
            image_config: None,
        },
        options,
        engine_kind: VmmKind::Libkrun,
        transport: Transport::unix("/tmp/boxlite.sock"),
        box_home: "/tmp/box".to_string(),
        ready_socket_path: "/tmp/ready.sock".to_string(),
    }
}

#[test]
fn test_config_state_to_info() {
    let config = config(RootfsSpec::Image("python:3.11".to_string()), Some(4), Some(1024));

    let mut state = BoxState::new();
    state.set_pid(Some(12345));
    let _ = state.transition_to(BoxStatus::Running);

    let info = BoxInfo::new(&config, &state);

    assert_eq!(info.id, config.id);
    assert_eq!(info.status, state.status);
    assert_eq!(info.created_at, config.created_at);
    assert_eq!(info.pid, state.pid);
    assert_eq!(
        info.transport.socket_file(),
        config.transport.socket_file()
    );
    assert_eq!(info.image, "python:3.11");
    assert_eq!(info.cpus, 4);
    assert_eq!(info.memory_mib, 1024);
}

#[test]
fn test_info_defaults_and_rootfs_label() {
    let config = config(RootfsSpec::RootfsPath("/srv/rootfs".to_string()), None, None);
    let state = BoxState::new_at(5);
    let info = BoxInfo::new(&config, &state);
    assert_eq!(info.image, "rootfs:/srv/rootfs");
    assert_eq!(info.cpus, 2);
    assert_eq!(info.memory_mib, 512);
    assert_eq!(info.last_updated, 5);
    assert!(info.labels.is_empty());
    assert_eq!(info.status, BoxStatus::Configured);
}

#[test]
fn test_info_equality_ignores_name_update_time_and_transport() {
    let config = config(RootfsSpec::Image("a".to_string()), None, None);
    let state = BoxState::new_at(5);
    let a = BoxInfo::new(&config, &state);
    let mut b = a.clone();
    b.name = Some("other".to_string());
    b.last_updated = 99;
    b.transport = Transport::Vsock { port: 1 };
    assert!(a == b);
    assert!(a.same_as(&b));
    let mut c = a.clone();
    c.pid = Some(1);
    assert!(a != c);
    let mut d = a.clone();
    d.labels.push(("k".to_string(), "v".to_string()));
    assert!(a != d);
    let mut e = a.clone();
    e.image.push('x');
    assert!(!a.same_as(&e));
    let mut f = a.clone();
    f.status = BoxStatus::Stopped;
    assert!(a != f);
    let mut g = a.clone();
    g.cpus = 3;
    assert!(a != g);
    let mut h = a.clone();
    h.created_at += 1;
    assert!(a != h);
    let mut i = a.clone();
    i.id.push('X');
    assert!(a != i);
    let mut j = a.clone();
    j.memory_mib = 1;
    assert!(a != j);
}

#[test]
fn test_info_for_the_language_bindings() {
    let config = config(RootfsSpec::Image("a".to_string()), None, None);
    let mut state = BoxState::new_at(5);
    state.status = BoxStatus::Running;
    state.pid = Some(9);
    let info = BoxInfo::new(&config, &state);
    let js = JsBoxInfo::from_info(info, "2023-11-14T22:13:20+00:00".to_string());
    assert_eq!(js.id, "01HJK4TNRPQSXYZ8WM6NCVT9R5");
    assert_eq!(js.state.status, "running");
    assert!(js.state.running);
    assert_eq!(js.state.pid, Some(9));
    assert_eq!(js.created_at, "2023-11-14T22:13:20+00:00");
    assert_eq!(js.image, "a");
    assert_eq!(js.cpus, 2);
    assert_eq!(js.memory_mib, 512);
    assert_eq!(js.name, None);
}

#[test]
fn test_creation_time_is_written_in_rfc_3339_form() {
    let config = config(RootfsSpec::Image("a".to_string()), None, None);
    let state = BoxState::new_at(5);
    let mut info = BoxInfo::new(&config, &state);
    info.created_at = 1_700_000_000_000;
    let js = JsBoxInfo::from_box_info(info.clone()).unwrap();
    assert_eq!(js.created_at, "2023-11-14T22:13:20+00:00");
    assert_eq!(js.state.status, "configured");
    assert!(!js.state.running);
    assert_eq!(js.id, info.id);

    info.created_at = 947_638_923_004;
    let js = JsBoxInfo::from_box_info(info.clone()).unwrap();
    assert_eq!(js.created_at, "2000-01-12T01:02:03.004+00:00");

    info.created_at = 0;
    let js = JsBoxInfo::from_box_info(info.clone()).unwrap();
    assert_eq!(js.created_at, "1970-01-01T00:00:00+00:00");

    info.created_at = i64::MAX;
    assert!(JsBoxInfo::from_box_info(info).is_none());
}

#[test]
fn test_list_shows_running_boxes_unless_all_are_asked_for() {
    let statuses = [
        BoxStatus::Configured,
        BoxStatus::Running,
        BoxStatus::Stopped,
        BoxStatus::Running,
        BoxStatus::Unknown,
    ];
    let boxes = || -> Vec<BoxInfo> {
        statuses
            .iter()
            .enumerate()
            .map(|(i, s)| {
                let mut state = BoxState::new_at(i as i64);
                state.status = *s;
                BoxInfo::new(&config(RootfsSpec::Image(format!("img{}", i)), None, None), &state)
            })
            .collect()
    };
    let active = ListArgs {
        all: false,
        quiet: false,
        format: "table".to_string(),
    }
    .select(boxes());
    assert_eq!(
        active.iter().map(|b| b.image.as_str()).collect::<Vec<_>>(),
        vec!["img1", "img3"]
    );
    let all = ListArgs {
        all: true,
        quiet: true,
        format: "json".to_string(),
    }
    .select(boxes());
    assert_eq!(
        all.iter().map(|b| b.image.as_str()).collect::<Vec<_>>(),
        vec!["img0", "img1", "img2", "img3", "img4"]
    );
    assert!(ListArgs {
        all: false,
        quiet: false,
        format: String::new()
    }
    .select(vec![])
    .is_empty());
}

#[test]
fn test_global_flags_runtime_options() {
    let base = || BoxliteOptions {
        home_dir: "/default/home".to_string(),
        image_registries: vec!["docker.io".to_string()],
    };
    let flags = GlobalFlags {
        debug: false,
        home: Some("/cli/home".to_string()),
        registry: vec!["ghcr.io".to_string(), "quay.io".to_string()],
        config: None,
    };
    let options = flags.runtime_options(base());
    assert_eq!(options.home_dir, "/cli/home");
    assert_eq!(
        options.image_registries,
        vec![
            "ghcr.io".to_string(),
            "quay.io".to_string(),
            "docker.io".to_string()
        ]
    );
    let plain = GlobalFlags {
        debug: true,
        home: None,
        registry: vec![],
        config: Some("c.json".to_string()),
    };
    let options = plain.runtime_options(base());
    assert_eq!(options.home_dir, "/default/home");
    assert_eq!(options.image_registries, vec!["docker.io".to_string()]);
    let rt = flags.create_runtime(base());
    assert_eq!(rt.layout().home(), "/cli/home");
    assert_eq!(rt.image_registries().len(), 3);
    assert!(rt.list_info().is_empty());
    assert!(!rt.is_shut_down());
}

#[test]
fn test_create_args_to_box_options() {
    let args = CreateArgs {
        image: "python:3.11".to_string(),
        management: ManagementFlags {
            name: None,
            detach: false,
            rm: true,
        },
        env: vec!["A=1".to_string(), "HOST".to_string()],
        workdir: Some("/srv".to_string()),
        resource: ResourceFlags {
            cpus: Some(300),
            memory: Some(2048),
        },
        publish: PublishFlags {
            publish: vec!["8080:80".to_string(), "53/udp".to_string()],
        },
        volume: VolumeFlags {
            volume: vec!["/h:/g:ro".to_string(), "/anon".to_string()],
        },
    };
    let (options, follow_up) = args.to_box_options("/base", &vec![None, None]).unwrap();
    assert_eq!(options.cpus, Some(255));
    assert_eq!(options.memory_mib, Some(2048));
    assert!(!options.detach);
    assert!(options.auto_remove);
    assert_eq!(options.working_dir.as_deref(), Some("/srv"));
    assert_eq!(options.env, vec![("A".to_string(), "1".to_string())]);
    assert!(matches!(options.rootfs, RootfsSpec::Image(ref i) if i == "python:3.11"));
    assert_eq!(options.ports.len(), 2);
    assert_eq!(options.ports[0].host_port, Some(8080));
    assert_eq!(options.ports[1].protocol, PortProtocol::Tcp);
    assert_eq!(options.volumes.len(), 2);
    assert_eq!(options.volumes[0].host_path, "/h");
    assert!(options.volumes[0].read_only);
    assert!(options.volumes[1].host_path.starts_with("/base/volumes/anonymous/"));
    assert_eq!(
        follow_up.volume_steps,
        vec![HostPathStep::Ready, HostPathStep::Create]
    );
    assert_eq!(follow_up.downgraded_ports, vec!["53/udp".to_string()]);
    assert_eq!(follow_up.skipped_env, vec!["HOST".to_string()]);

    let mut bad_port = args.clone();
    bad_port.publish.publish.push("x".to_string());
    bad_port.volume.volume.push("::::".to_string());
    let err = bad_port.to_box_options("/base", &vec![None, None]).unwrap_err();
    assert_eq!(err.message(), "invalid port number \"x\"");
    let mut bad_volume = args.clone();
    bad_volume.volume.volume.push("rel".to_string());
    let err = bad_volume.to_box_options("/base", &vec![None, None]).unwrap_err();
    assert_eq!(err.kind(), ErrorKind::Config);
    assert!(err.message().starts_with("anonymous volume box path must be absolute"));
}

#[test]
fn test_error_kinds_and_exit_codes() {
    let kinds = [
        (ErrorKind::NotFound, "not found", 1),
        (ErrorKind::AlreadyExists, "already exists", 1),
        (ErrorKind::InvalidState, "invalid state", 1),
        (ErrorKind::Config, "configuration error", 2),
        (ErrorKind::Engine, "engine error", 125),
        (ErrorKind::Guest, "guest error", 1),
        (ErrorKind::Storage, "storage error", 1),
        (ErrorKind::Database, "database error", 1),
        (ErrorKind::Image, "image error", 125),
        (ErrorKind::Network, "network error", 1),
        (ErrorKind::Stopped, "stopped", 1),
        (ErrorKind::Unsupported, "unsupported", 1),
        (ErrorKind::Internal, "internal error", 1),
    ];
    for (kind, label, code) in kinds {
        let e = BoxliteError::new(kind, "m".to_string());
        assert_eq!(e.kind(), kind);
        assert_eq!(e.message(), "m");
        assert_eq!(e.to_string(), format!("{}: m", label));
        assert_eq!(e.exit_code(), code);
        assert_eq!(kind.label(), label);
        assert_eq!(kind.exit_code(), code);
    }
    assert!(matches!(
        BoxliteError::new(ErrorKind::Image, "x".to_string()),
        BoxliteError::Image(_)
    ));
    assert_eq!(Shell::Bash.name(), "bash");
    assert_eq!(Shell::Zsh.name(), "zsh");
    assert_eq!(Shell::Fish.name(), "fish");
}

#[test]
fn test_options_defaults_and_sanitize() {
    let d = BoxOptions::default();
    assert_eq!(d.cpus, None);
    assert_eq!(d.memory_mib, None);
    assert!(d.env.is_empty());
    assert!(d.volumes.is_empty());
    assert!(d.ports.is_empty());
    assert!(!d.detach);
    assert!(d.auto_remove);
    assert!(matches!(d.rootfs, RootfsSpec::Image(ref i) if i == "alpine:latest"));
    assert_eq!(d.effective_cpus(), 2);
    assert_eq!(d.effective_memory_mib(), 512);
    assert!(d.sanitize().is_ok());
    let mut o = BoxOptions::default();
    o.rootfs = RootfsSpec::RootfsPath(String::new());
    assert_eq!(o.sanitize().unwrap_err().kind(), ErrorKind::Config);
    o.rootfs = RootfsSpec::RootfsPath("/r".to_string());
    assert!(o.sanitize().is_ok());
    o.cpus = Some(0);
    assert_eq!(o.sanitize().unwrap_err().kind(), ErrorKind::Config);
    o.cpus = Some(255);
    assert!(o.sanitize().is_ok());
    assert_eq!(o.effective_cpus(), 255);
    let copy = o.duplicate();
    assert_eq!(copy.cpus, Some(255));
    assert_eq!(copy.rootfs.text(), "/r");
}
