use boxlite::error::ErrorKind;
use boxlite::options::SecurityOptions;
use boxlite::vmm::BlockDevice;
use boxlite::vmm::BlockDevices;
use boxlite::vmm::DiskFormat;
use boxlite::vmm::Entrypoint;
use boxlite::vmm::FsShares;
use boxlite::vmm::InstanceSpec;
use boxlite::vmm::RootfsInit;
use boxlite::vmm::Transport;
use boxlite::vmm::VmmKind;

#[test]
fn test_disk_format_as_str() {
    assert_eq!(DiskFormat::Raw.as_str(), "raw");
    assert_eq!(DiskFormat::Qcow2.as_str(), "qcow2");
}

#[test]
fn test_block_device_creation() {
    let device = BlockDevice {
        block_id: "vda".to_string(),
        disk_path: "/tmp/test.qcow2".to_string(),
        read_only: false,
        format: DiskFormat::Qcow2,
    };

    assert_eq!(device.block_id, "vda");
    assert_eq!(device.disk_path, "/tmp/test.qcow2");
    assert!(!device.read_only);
    assert_eq!(device.format, DiskFormat::Qcow2);
}

#[test]
fn test_block_devices() {
    let mut devices = BlockDevices::new();
    assert_eq!(devices.devices().len(), 0);

    devices.add(BlockDevice {
        block_id: "vda".to_string(),
        disk_path: "/tmp/test.qcow2".to_string(),
        read_only: false,
        format: DiskFormat::Qcow2,
    });
    assert_eq!(devices.devices().len(), 1);

    devices.add(BlockDevice {
        block_id: "vdb".to_string(),
        disk_path: "/tmp/scratch.raw".to_string(),
        read_only: true,
        format: DiskFormat::Raw,
    });
    assert_eq!(devices.devices().len(), 2);

    assert_eq!(devices.devices()[0].block_id, "vda");
    assert_eq!(devices.devices()[0].format, DiskFormat::Qcow2);

    assert_eq!(devices.devices()[1].block_id, "vdb");
    assert_eq!(devices.devices()[1].format, DiskFormat::Raw);
    assert!(devices.devices()[1].read_only);
}

#[test]
fn test_block_devices_default() {
    let devices = BlockDevices::default();
    assert_eq!(devices.devices().len(), 0);
}

#[test]
fn test_fs_shares_keep_order() {
    let mut shares = FsShares::new();
    assert!(shares.shares().is_empty());
    shares.add("rootfs", "/host/rootfs".to_string(), true);
    shares.add("data", "/host/data".to_string(), false);
    assert_eq!(shares.shares().len(), 2);
    assert_eq!(shares.shares()[0].tag, "rootfs");
    assert_eq!(shares.shares()[0].host_path, "/host/rootfs");
    assert!(shares.shares()[0].read_only);
    assert_eq!(shares.shares()[1].tag, "data");
    assert!(!shares.shares()[1].read_only);
    let copy = shares.duplicate();
    assert_eq!(copy.shares().len(), 2);
    assert_eq!(copy.shares()[1].host_path, "/host/data");
    assert!(FsShares::default().shares().is_empty());
}

#[test]
fn test_vmm_kind_from_str() {
    assert_eq!(VmmKind::from_str("libkrun").unwrap(), VmmKind::Libkrun);
    assert_eq!(VmmKind::from_str("LibKrun").unwrap(), VmmKind::Libkrun);
    assert_eq!(
        VmmKind::from_str("FIRECRACKER").unwrap(),
        VmmKind::Firecracker
    );
    let err = VmmKind::from_str("Qemu").unwrap_err();
    assert_eq!(err.kind(), ErrorKind::Engine);
    assert_eq!(
        err.message(),
        "Unknown engine type: 'Qemu'. Supported: libkrun, firecracker"
    );
    assert!(VmmKind::from_lowercase("LIBKRUN", "LIBKRUN").is_err());
    assert_eq!(
        VmmKind::from_str("lib\u{212A}run").unwrap(),
        VmmKind::Libkrun
    );
}

#[test]
fn test_transport_socket_file() {
    let unix = Transport::unix("/tmp/boxlite.sock");
    assert_eq!(unix.socket_file(), Some("/tmp/boxlite.sock"));
    assert_eq!(Transport::Vsock { port: 2695 }.socket_file(), None);
    assert_eq!(unix.duplicate().socket_file(), Some("/tmp/boxlite.sock"));
}

#[test]
fn test_instance_hand_over() {
    let mut shares = FsShares::new();
    shares.add("shared", "/h/mounts".to_string(), false);
    let mut disks = BlockDevices::new();
    disks.add(BlockDevice {
        block_id: "vda".to_string(),
        disk_path: "/h/root.qcow2".to_string(),
        read_only: false,
        format: DiskFormat::Qcow2,
    });
    let config = InstanceSpec {
        box_id: String::new(),
        security: SecurityOptions {
            jailer_enabled: false,
            seccomp_enabled: false,
        },
        cpus: Some(2),
        memory_mib: Some(512),
        fs_shares: shares,
        block_devices: disks,
        guest_entrypoint: Entrypoint {
            executable: "/boxlite/bin/boxlite-guest".to_string(),
            args: vec!["--listen".to_string()],
            env: vec![("A".to_string(), "1".to_string())],
        },
        transport: Transport::unix("/h/sockets/grpc.sock"),
        ready_transport: Transport::unix("/h/sockets/ready.sock"),
        init_rootfs: RootfsInit::Overlay {
            lower_dirs: vec!["/l2".to_string(), "/l1".to_string()],
            upper_dir: "/u".to_string(),
            work_dir: "/w".to_string(),
            merged_dir: "/m".to_string(),
        },
        network_backend_endpoint: Some("/h/net.sock".to_string()),
        home_dir: "/h".to_string(),
        console_output: Some("/h/console.log".to_string()),
        detach: true,
        parent_pid: 77,
    };
    let security = SecurityOptions {
        jailer_enabled: true,
        seccomp_enabled: false,
    };
    let handed = config.hand_over("BOX", security, &Some("debug".to_string()));
    assert_eq!(handed.box_id, "BOX");
    assert_eq!(handed.security, security);
    assert_eq!(
        handed.guest_entrypoint.env,
        vec![
            ("A".to_string(), "1".to_string()),
            ("RUST_LOG".to_string(), "debug".to_string())
        ]
    );
    assert_eq!(handed.guest_entrypoint.args, vec!["--listen".to_string()]);
    assert_eq!(handed.network_backend_endpoint, None);
    assert_eq!(handed.cpus, Some(2));
    assert_eq!(handed.memory_mib, Some(512));
    assert_eq!(handed.fs_shares.shares()[0].tag, "shared");
    assert_eq!(handed.block_devices.devices()[0].disk_path, "/h/root.qcow2");
    assert_eq!(handed.console_output.as_deref(), Some("/h/console.log"));
    assert!(handed.detach);
    assert_eq!(handed.parent_pid, 77);
    assert!(matches!(handed.init_rootfs, RootfsInit::Overlay { ref lower_dirs, .. } if lower_dirs.len() == 2));
    let plain = config.hand_over("BOX", security, &None);
    assert_eq!(
        plain.guest_entrypoint.env,
        vec![("A".to_string(), "1".to_string())]
    );
}
