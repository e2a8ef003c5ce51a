use boxlite::cli::apply_env_vars_with_lookup;
use boxlite::cli::is_windows_absolute_path;
use boxlite::cli::is_windows_drive;
use boxlite::cli::parse_port;
use boxlite::cli::parse_publish_spec;
use boxlite::cli::parse_volume_read_only;
use boxlite::cli::parse_volume_spec;
use boxlite::cli::udp_warning;
use boxlite::cli::HostPathStep;
use boxlite::cli::ManagementFlags;
use boxlite::cli::ProcessFlags;
use boxlite::cli::PublishFlags;
use boxlite::cli::ResourceFlags;
use boxlite::cli::VolumeFlags;
use boxlite::error::ErrorKind;
use boxlite::ids::is_valid_box_id;
use boxlite::options::BoxOptions;
use boxlite::options::PortProtocol;

#[test]
fn test_apply_env_vars_with_lookup() {
    let mut opts = BoxOptions::default();
    let current_env = vec![
        "TEST_VAR=test_value".to_string(),
        "TEST_HOST_VAR".to_string(),
        "NON_EXISTENT_VAR".to_string(),
    ];

    apply_env_vars_with_lookup(&current_env, &mut opts, |k| {
        if k == "TEST_HOST_VAR" {
            Some("host_value".to_string())
        } else {
            None
        }
    });

    assert!(opts
        .env
        .contains(&("TEST_VAR".to_string(), "test_value".to_string())));

    assert!(opts
        .env
        .contains(&("TEST_HOST_VAR".to_string(), "host_value".to_string())));

    assert!(!opts.env.iter().any(|(k, _)| k == "NON_EXISTENT_VAR"));
}

#[test]
fn test_apply_env_vars_reports_skipped_names_and_keeps_order() {
    let mut opts = BoxOptions::default();
    opts.env.push(("FIRST".to_string(), "0".to_string()));
    let env = vec![
        "A=1".to_string(),
        "MISSING".to_string(),
        "B=x=y".to_string(),
        "A=2".to_string(),
        "=empty_key".to_string(),
    ];
    let skipped = apply_env_vars_with_lookup(&env, &mut opts, |_| None);
    assert_eq!(skipped, vec!["MISSING".to_string()]);
    assert_eq!(
        opts.env,
        vec![
            ("FIRST".to_string(), "0".to_string()),
            ("A".to_string(), "1".to_string()),
            ("B".to_string(), "x=y".to_string()),
            ("A".to_string(), "2".to_string()),
            ("".to_string(), "empty_key".to_string()),
        ]
    );
}

#[test]
fn test_process_flags_apply_sets_workdir_and_env() {
    let flags = ProcessFlags {
        interactive: false,
        tty: false,
        env: vec!["K=V".to_string(), "HOST".to_string()],
        workdir: Some("/work".to_string()),
    };
    let mut opts = BoxOptions::default();
    let skipped = flags.apply_to_with_lookup(&mut opts, |k| {
        if k == "HOST" {
            Some("h".to_string())
        } else {
            None
        }
    });
    assert!(skipped.is_empty());
    assert_eq!(opts.working_dir.as_deref(), Some("/work"));
    assert_eq!(
        opts.env,
        vec![
            ("K".to_string(), "V".to_string()),
            ("HOST".to_string(), "h".to_string())
        ]
    );
}

#[test]
fn test_process_flags_validate_tty() {
    let flags = ProcessFlags {
        interactive: false,
        tty: true,
        env: vec![],
        workdir: None,
    };
    let err = flags.validate(false, false).unwrap_err();
    assert_eq!(err.kind(), ErrorKind::Config);
    assert_eq!(err.message(), "the input device is not a TTY.");
    assert!(flags.validate(true, false).is_ok());
    assert!(flags.validate(false, true).is_ok());
}

#[test]
fn test_resource_flags_cpu_cap() {
    let flags = ResourceFlags {
        cpus: Some(1000),
        memory: None,
    };

    let mut opts = BoxOptions::default();
    flags.apply_to(&mut opts);

    assert_eq!(opts.cpus, Some(255));
}

#[test]
fn test_resource_flags_keep_what_is_not_given() {
    let mut opts = BoxOptions::default();
    opts.cpus = Some(3);
    opts.memory_mib = Some(64);
    ResourceFlags {
        cpus: None,
        memory: Some(2048),
    }
    .apply_to(&mut opts);
    assert_eq!(opts.cpus, Some(3));
    assert_eq!(opts.memory_mib, Some(2048));
    ResourceFlags {
        cpus: Some(255),
        memory: None,
    }
    .apply_to(&mut opts);
    assert_eq!(opts.cpus, Some(255));
    assert_eq!(opts.memory_mib, Some(2048));
}

#[test]
fn test_management_flags_apply_to() {
    let mut opts = BoxOptions::default();
    ManagementFlags {
        name: Some("n".to_string()),
        detach: true,
        rm: false,
    }
    .apply_to(&mut opts);
    assert!(opts.detach);
    assert!(!opts.auto_remove);
}

#[test]
fn test_parse_publish_spec_host_box() {
    let spec = parse_publish_spec("18789:18789").unwrap();
    assert_eq!(spec.host_port, Some(18789));
    assert_eq!(spec.guest_port, 18789);
    assert!(matches!(spec.protocol, PortProtocol::Tcp));
}

#[test]
fn test_parse_publish_spec_host_box_tcp() {
    let spec = parse_publish_spec("8080:80/tcp").unwrap();
    assert_eq!(spec.host_port, Some(8080));
    assert_eq!(spec.guest_port, 80);
    assert!(matches!(spec.protocol, PortProtocol::Tcp));
}

#[test]
fn test_parse_publish_spec_box_only() {
    let spec = parse_publish_spec("80").unwrap();
    assert_eq!(spec.host_port, None);
    assert_eq!(spec.guest_port, 80);
}

#[test]
fn test_parse_publish_spec_udp() {
    let spec = parse_publish_spec("53:53/udp").unwrap();
    assert_eq!(spec.host_port, Some(53));
    assert_eq!(spec.guest_port, 53);
    assert!(matches!(spec.protocol, PortProtocol::Udp));
}

#[test]
fn test_parse_publish_spec_invalid_protocol() {
    assert!(parse_publish_spec("80:80/sctp").is_err());
}

#[test]
fn test_parse_publish_spec_invalid_port() {
    assert!(parse_publish_spec("0:80").is_err());
    assert!(parse_publish_spec("99999:80").is_err());
}

#[test]
fn test_parse_publish_spec_edges() {
    let spec = parse_publish_spec("  +8080 : 0080 / TcP ").unwrap_err();
    assert_eq!(spec.kind(), ErrorKind::Config);
    assert_eq!(
        spec.message(),
        "invalid protocol \" TcP\"; use tcp or udp"
    );
    let spec = parse_publish_spec("  +8080 : 0080 /UDP").unwrap();
    assert_eq!(spec.host_port, Some(8080));
    assert_eq!(spec.guest_port, 80);
    assert_eq!(spec.protocol, PortProtocol::Udp);
    assert!(spec.host_ip.is_none());
    assert_eq!(parse_publish_spec("65535").unwrap().guest_port, 65535);
    assert_eq!(
        parse_publish_spec("65536").unwrap_err().message(),
        "invalid port number \"65536\""
    );
    assert_eq!(
        parse_publish_spec("   ").unwrap_err().message(),
        "empty port spec"
    );
    assert_eq!(
        parse_publish_spec("80:0").unwrap_err().message(),
        "port must be 1-65535"
    );
    assert_eq!(
        parse_publish_spec("1:2:3").unwrap_err().message(),
        "invalid port number \"2:3\""
    );
    assert_eq!(
        parse_publish_spec(":80").unwrap_err().message(),
        "invalid port number \"\""
    );
    assert_eq!(
        parse_publish_spec("-1").unwrap_err().message(),
        "invalid port number \"-1\""
    );
    assert_eq!(
        parse_publish_spec("+").unwrap_err().message(),
        "invalid port number \"+\""
    );
}

#[test]
fn test_parse_port_matches_standard_parsing() {
    for s in [
        "1", "80", "+80", "0080", "65535", "65536", "0", "", "+", "-5", "8 0", "80a", "٣",
        "00000000000000000000000000080", "99999999999999999999",
    ] {
        let ours = parse_port(s).ok();
        let std_parse = s.parse::<u16>().ok().filter(|n| *n != 0);
        assert_eq!(ours, std_parse, "input {:?}", s);
    }
}

#[test]
fn test_publish_flags_apply_to() {
    let flags = PublishFlags {
        publish: vec!["18789:18789".to_string(), "8080:80/tcp".to_string()],
    };
    let mut opts = BoxOptions::default();
    flags.apply_to(&mut opts).unwrap();
    assert_eq!(opts.ports.len(), 2);
    assert_eq!(opts.ports[0].host_port, Some(18789));
    assert_eq!(opts.ports[0].guest_port, 18789);
    assert_eq!(opts.ports[1].host_port, Some(8080));
    assert_eq!(opts.ports[1].guest_port, 80);
}

#[test]
fn test_publish_flags_store_udp_as_tcp_and_report_it() {
    let flags = PublishFlags {
        publish: vec![
            "53:53/udp".to_string(),
            "80".to_string(),
            "54/UDP".to_string(),
        ],
    };
    let mut opts = BoxOptions::default();
    let downgraded = flags.apply_to(&mut opts).unwrap();
    assert_eq!(downgraded, vec!["53:53/udp".to_string(), "54/UDP".to_string()]);
    assert_eq!(opts.ports.len(), 3);
    assert!(opts.ports.iter().all(|p| p.protocol == PortProtocol::Tcp));
    assert_eq!(
        udp_warning("53:53/udp"),
        "Warning: UDP port forwarding is not yet implemented; 53:53/udp will be forwarded as TCP"
    );
}

#[test]
fn test_publish_flags_stop_at_first_refused_spec() {
    let flags = PublishFlags {
        publish: vec!["80".to_string(), "x".to_string(), "81".to_string()],
    };
    let mut opts = BoxOptions::default();
    let err = flags.apply_to(&mut opts).unwrap_err();
    assert_eq!(err.message(), "invalid port number \"x\"");
    assert_eq!(opts.ports.len(), 1);
    assert_eq!(opts.ports[0].guest_port, 80);
}

#[test]
fn test_parse_volume_spec_host_guest() {
    let spec = parse_volume_spec("/data:/app/data").unwrap();
    assert_eq!(spec.host_path.as_deref(), Some("/data"));
    assert_eq!(spec.guest_path, "/app/data");
    assert!(!spec.read_only);
}

#[test]
fn test_parse_volume_spec_read_only() {
    let spec = parse_volume_spec("/data:/app/data:ro").unwrap();
    assert_eq!(spec.host_path.as_deref(), Some("/data"));
    assert_eq!(spec.guest_path, "/app/data");
    assert!(spec.read_only);
}

#[test]
fn test_parse_volume_spec_rw_explicit() {
    let spec = parse_volume_spec("/data:/app/data:rw").unwrap();
    assert_eq!(spec.host_path.as_deref(), Some("/data"));
    assert_eq!(spec.guest_path, "/app/data");
    assert!(!spec.read_only);
}

#[test]
fn test_parse_volume_spec_anonymous() {
    let spec = parse_volume_spec("/data").unwrap();
    assert!(spec.host_path.is_none());
    assert_eq!(spec.guest_path, "/data");
    assert!(!spec.read_only);
}

#[test]
fn test_parse_volume_spec_anonymous_ro() {
    let spec = parse_volume_spec("/data:ro").unwrap();
    assert!(spec.host_path.is_none());
    assert_eq!(spec.guest_path, "/data");
    assert!(spec.read_only);
}

#[test]
fn test_parse_volume_spec_anonymous_relative_invalid() {
    assert!(parse_volume_spec("data").is_err());
}

#[test]
fn test_parse_volume_spec_invalid_empty_parts() {
    assert!(parse_volume_spec(":/app").is_err());
    assert!(parse_volume_spec("/data:").is_err());
}

#[test]
fn test_parse_volume_spec_windows_drive_two_parts() {
    let spec = parse_volume_spec(r"C:\data:/app/data").unwrap();
    assert_eq!(spec.host_path.as_deref(), Some(r"C:\data"));
    assert_eq!(spec.guest_path, "/app/data");
    assert!(!spec.read_only);
}

#[test]
fn test_parse_volume_spec_windows_drive_with_ro() {
    let spec = parse_volume_spec(r"C:\data:/app/data:ro").unwrap();
    assert_eq!(spec.host_path.as_deref(), Some(r"C:\data"));
    assert_eq!(spec.guest_path, "/app/data");
    assert!(spec.read_only);
}

#[test]
fn test_parse_volume_spec_windows_drive_with_rw() {
    let spec = parse_volume_spec(r"D:\path:/mnt:rw").unwrap();
    assert_eq!(spec.host_path.as_deref(), Some(r"D:\path"));
    assert_eq!(spec.guest_path, "/mnt");
    assert!(!spec.read_only);
}

#[test]
fn test_parse_volume_spec_windows_drive_long_path() {
    let spec = parse_volume_spec(r"D:\host\path:/app").unwrap();
    assert_eq!(spec.host_path.as_deref(), Some(r"D:\host\path"));
    assert_eq!(spec.guest_path, "/app");
}

#[test]
fn test_parse_volume_spec_unix_three_colons_invalid() {
    assert!(parse_volume_spec("/a:b:c:d").is_err());
}

#[test]
fn test_parse_volume_spec_linux_unchanged() {
    let spec = parse_volume_spec("/data:/app/data").unwrap();
    assert_eq!(spec.host_path.as_deref(), Some("/data"));
    assert_eq!(spec.guest_path, "/app/data");
    let spec2 = parse_volume_spec("/data:/app/data:ro").unwrap();
    assert_eq!(spec2.host_path.as_deref(), Some("/data"));
    assert_eq!(spec2.guest_path, "/app/data");
    assert!(spec2.read_only);
}

#[test]
fn test_parse_volume_spec_messages() {
    assert_eq!(
        parse_volume_spec("  ").unwrap_err().message(),
        "empty volume spec"
    );
    assert_eq!(
        parse_volume_spec("data").unwrap_err().message(),
        "anonymous volume box path must be absolute (e.g. /data), got \"data\""
    );
    assert_eq!(
        parse_volume_spec(":ro").unwrap_err().message(),
        "volume box path must be non-empty"
    );
    assert_eq!(
        parse_volume_spec(":/app").unwrap_err().message(),
        "volume host path must be non-empty"
    );
    assert_eq!(
        parse_volume_spec("/data:").unwrap_err().message(),
        "volume box path must be non-empty"
    );
    assert_eq!(
        parse_volume_spec("/a:b:c:d").unwrap_err().message(),
        "invalid volume spec \"/a:b:c:d\"; use hostPath:boxPath[:options] (e.g. /data:/app/data or C:\\data:/app/data:ro)"
    );
    assert_eq!(parse_volume_spec(":").unwrap_err().kind(), ErrorKind::Config);
}

#[test]
fn test_parse_volume_spec_corner_cases() {
    let spec = parse_volume_spec(" /host : /guest : rw , RO ").unwrap();
    assert_eq!(spec.host_path.as_deref(), Some("/host"));
    assert_eq!(spec.guest_path, "/guest");
    assert!(spec.read_only);

    let spec = parse_volume_spec("C").unwrap();
    assert!(spec.host_path.is_none());
    assert_eq!(spec.guest_path, "C");

    let spec = parse_volume_spec("data:RW").unwrap();
    assert!(spec.host_path.is_none());
    assert_eq!(spec.guest_path, "data");
    assert!(!spec.read_only);

    let spec = parse_volume_spec("C:b:ro").unwrap();
    assert_eq!(spec.host_path.as_deref(), Some("C:b"));
    assert_eq!(spec.guest_path, "ro");
    assert!(!spec.read_only);

    let spec = parse_volume_spec("C:x:/g:nocopy:ro").unwrap();
    assert_eq!(spec.host_path.as_deref(), Some("C:x"));
    assert_eq!(spec.guest_path, "/g");
    assert!(!spec.read_only);

    let spec = parse_volume_spec("/a:/b:nocopy").unwrap();
    assert!(!spec.read_only);
}

#[test]
fn test_windows_path_helpers() {
    assert!(is_windows_drive("C"));
    assert!(is_windows_drive(" z "));
    assert!(!is_windows_drive("CD"));
    assert!(!is_windows_drive("1"));
    assert!(!is_windows_drive(""));
    assert!(!is_windows_drive("é"));
    assert!(is_windows_absolute_path(r"C:\foo"));
    assert!(is_windows_absolute_path("D:/bar"));
    assert!(is_windows_absolute_path("D:/"));
    assert!(!is_windows_absolute_path("D:"));
    assert!(!is_windows_absolute_path("/usr"));
    assert!(!is_windows_absolute_path("1:/x"));
    assert!(!is_windows_absolute_path("Cé/"));
    assert!(parse_volume_read_only("ro"));
    assert!(parse_volume_read_only("rw, RO"));
    assert!(!parse_volume_read_only("rw,nocopy"));
    assert!(!parse_volume_read_only(""));
    assert!(!parse_volume_read_only("r o"));
}

#[test]
fn test_volume_flags_apply_to() {
    let flags = VolumeFlags {
        volume: vec![
            "/host/data:/guest/data".to_string(),
            "/readonly:/ro:ro".to_string(),
        ],
    };
    let mut opts = BoxOptions::default();
    flags.apply_to(&mut opts, "/tmp").unwrap();
    assert_eq!(opts.volumes.len(), 2);
    assert_eq!(opts.volumes[0].host_path, "/host/data");
    assert_eq!(opts.volumes[0].guest_path, "/guest/data");
    assert!(!opts.volumes[0].read_only);
    assert_eq!(opts.volumes[1].host_path, "/readonly");
    assert_eq!(opts.volumes[1].guest_path, "/ro");
    assert!(opts.volumes[1].read_only);
}

#[test]
fn test_volume_flags_apply_to_windows_style() {
    let flags = VolumeFlags {
        volume: vec![
            r"C:\host\data:/guest/data".to_string(),
            r"D:\readonly:/ro:ro".to_string(),
        ],
    };
    let mut opts = BoxOptions::default();
    flags.apply_to(&mut opts, "/tmp").unwrap();
    assert_eq!(opts.volumes.len(), 2);
    assert_eq!(opts.volumes[0].host_path, r"C:\host\data");
    assert_eq!(opts.volumes[0].guest_path, "/guest/data");
    assert!(!opts.volumes[0].read_only);
    assert_eq!(opts.volumes[1].host_path, r"D:\readonly");
    assert_eq!(opts.volumes[1].guest_path, "/ro");
    assert!(opts.volumes[1].read_only);
}

#[test]
fn test_volume_flags_plan_host_steps() {
    let flags = VolumeFlags {
        volume: vec![
            "/abs:/a".to_string(),
            "rel/dir:/b".to_string(),
            r"C:\win:/c".to_string(),
            "/data".to_string(),
            "/cache:ro".to_string(),
        ],
    };
    let mut opts = BoxOptions::default();
    let steps = flags.apply_to(&mut opts, "/home/u/.boxlite").unwrap();
    assert_eq!(
        steps,
        vec![
            HostPathStep::Ready,
            HostPathStep::Canonicalize,
            HostPathStep::Ready,
            HostPathStep::Create,
            HostPathStep::Create,
        ]
    );
    assert_eq!(opts.volumes.len(), 5);
    assert_eq!(opts.volumes[1].host_path, "rel/dir");
    assert_eq!(opts.volumes[3].guest_path, "/data");
    assert!(opts.volumes[4].read_only);
    let prefix = "/home/u/.boxlite/volumes/anonymous/";
    for i in [3usize, 4usize] {
        let host = &opts.volumes[i].host_path;
        assert!(host.starts_with(prefix), "{}", host);
        assert!(is_valid_box_id(&host[prefix.len()..]), "{}", host);
    }
    assert_ne!(opts.volumes[3].host_path, opts.volumes[4].host_path);
}

#[test]
fn test_volume_flags_stop_at_first_refused_spec() {
    let flags = VolumeFlags {
        volume: vec!["/a:/b".to_string(), "bad".to_string(), "/c:/d".to_string()],
    };
    let mut opts = BoxOptions::default();
    let err = flags.apply_to(&mut opts, "/tmp").unwrap_err();
    assert_eq!(err.kind(), ErrorKind::Config);
    assert_eq!(opts.volumes.len(), 1);
    assert_eq!(opts.volumes[0].guest_path, "/b");
}
