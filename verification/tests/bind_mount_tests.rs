use boxlite::bind_mount::create_bind_mount;
use boxlite::bind_mount::BindMountConfig;
use boxlite::bind_mount::LinkStep;
use boxlite::bind_mount::LinuxBindMount;
use boxlite::bind_mount::MacosSymlink;
use boxlite::bind_mount::MountStep;
use boxlite::bind_mount::Platform;
use boxlite::bind_mount::TargetKind;
use boxlite::error::ErrorKind;

#[test]
fn test_bind_mount_config() {
    let config = BindMountConfig::new("/source/path", "/target/path");
    assert_eq!(config.source, "/source/path");
    assert_eq!(config.target, "/target/path");
    assert!(!config.read_only);
    let ro = config.read_only();
    assert!(ro.read_only);
    assert_eq!(ro.source, "/source/path");
    assert_eq!(ro.target, "/target/path");
}

#[test]
fn test_linux_steps() {
    let rw = BindMountConfig::new("/s", "/t");
    assert_eq!(
        LinuxBindMount::steps(&rw),
        vec![MountStep::CreateTarget, MountStep::Bind, MountStep::MakeSlave]
    );
    let ro = BindMountConfig::new("/s", "/t").read_only();
    assert_eq!(
        LinuxBindMount::steps(&ro),
        vec![
            MountStep::CreateTarget,
            MountStep::Bind,
            MountStep::MakeSlave,
            MountStep::RemountReadOnly
        ]
    );
}

#[test]
fn test_linux_step_failures() {
    let config = BindMountConfig::new("/s", "/t");
    let f = LinuxBindMount::step_failed(MountStep::CreateTarget, &config, "EACCES");
    assert!(!f.unmount_target);
    assert_eq!(f.error.kind(), ErrorKind::Storage);
    assert_eq!(
        f.error.message(),
        "Failed to create bind mount target /t: EACCES"
    );
    let f = LinuxBindMount::step_failed(MountStep::Bind, &config, "EPERM");
    assert!(!f.unmount_target);
    assert_eq!(f.error.message(), "Failed to create bind mount /s -> /t: EPERM");
    let f = LinuxBindMount::step_failed(MountStep::MakeSlave, &config, "EINVAL");
    assert!(f.unmount_target);
    assert_eq!(
        f.error.message(),
        "Failed to set slave propagation on /t: EINVAL"
    );
    let f = LinuxBindMount::step_failed(MountStep::RemountReadOnly, &config, "EBUSY");
    assert!(f.unmount_target);
    assert_eq!(f.error.message(), "Failed to remount /t as read-only: EBUSY");
}

#[test]
fn test_linux_cleanup_happens_once() {
    let config = BindMountConfig::new("/s", "/t");
    let mut mount = LinuxBindMount::create(&config);
    assert_eq!(mount.target(), "/t");
    assert_eq!(mount.cleanup().as_deref(), Some("/t"));
    assert_eq!(mount.cleanup(), None);
    assert_eq!(mount.cleanup(), None);
    assert_eq!(
        mount.unmount_failed("EBUSY").message(),
        "Failed to unmount /t: EBUSY"
    );
}

#[test]
fn test_macos_steps() {
    let config = BindMountConfig::new("/s", "/a/b/t");
    let parent = Some("/a/b".to_string());
    let steps = MacosSymlink::steps_with(&config, &parent, TargetKind::Absent).unwrap();
    assert_eq!(steps.len(), 2);
    assert!(matches!(&steps[0], LinkStep::CreateParent { path } if path == "/a/b"));
    assert!(matches!(steps[1], LinkStep::Link));

    let steps = MacosSymlink::steps_with(&config, &parent, TargetKind::LinkOrFile).unwrap();
    assert_eq!(steps.len(), 3);
    assert!(matches!(steps[1], LinkStep::RemoveFile));
    assert!(matches!(steps[2], LinkStep::Link));

    let steps = MacosSymlink::steps_with(&config, &None, TargetKind::EmptyDir).unwrap();
    assert_eq!(steps.len(), 2);
    assert!(matches!(steps[0], LinkStep::RemoveDir));
    assert!(matches!(steps[1], LinkStep::Link));

    let steps = MacosSymlink::steps_with(&config, &None, TargetKind::Other).unwrap();
    assert_eq!(steps.len(), 1);

    let err = MacosSymlink::steps_with(&config, &parent, TargetKind::FullDir).unwrap_err();
    assert_eq!(err.kind(), ErrorKind::Storage);
    assert_eq!(err.message(), "Target /a/b/t exists and is not empty");
}

#[test]
fn test_macos_steps_take_the_parent_of_the_target() {
    let config = BindMountConfig::new("/s", "/a/b/t");
    let steps = MacosSymlink::steps(&config, TargetKind::Absent).unwrap();
    assert!(matches!(&steps[0], LinkStep::CreateParent { path } if path == "/a/b"));
    let root = BindMountConfig::new("/s", "/");
    let steps = MacosSymlink::steps(&root, TargetKind::Absent).unwrap();
    assert_eq!(steps.len(), 1);
    assert!(matches!(steps[0], LinkStep::Link));
}

#[test]
fn test_macos_failures_and_cleanup() {
    let config = BindMountConfig::new("/s", "/t");
    let e = MacosSymlink::step_failed(
        &LinkStep::CreateParent { path: "/".to_string() },
        &config,
        "boom",
    );
    assert_eq!(e.message(), "Failed to create parent directory for /t: boom");
    let e = MacosSymlink::step_failed(&LinkStep::RemoveFile, &config, "boom");
    assert_eq!(e.message(), "Failed to remove existing file/symlink /t: boom");
    let e = MacosSymlink::step_failed(&LinkStep::RemoveDir, &config, "boom");
    assert_eq!(e.message(), "Failed to remove empty directory /t: boom");
    let e = MacosSymlink::step_failed(&LinkStep::Link, &config, "boom");
    assert_eq!(e.message(), "Failed to create symlink /t -> /s: boom");
    let mut link = MacosSymlink::create(&config);
    assert_eq!(link.target(), "/t");
    assert_eq!(link.cleanup().as_deref(), Some("/t"));
    assert_eq!(link.cleanup(), None);
    assert_eq!(
        link.unlink_failed("gone").message(),
        "Failed to remove symlink /t: gone"
    );
}

#[test]
fn test_create_bind_mount_by_platform() {
    let config = BindMountConfig::new("/s", "/t").read_only();
    let mut linux = create_bind_mount(&config, Platform::Linux).unwrap();
    assert_eq!(linux.target(), "/t");
    assert_eq!(linux.unmount().as_deref(), Some("/t"));
    assert_eq!(linux.unmount(), None);
    let mut mac = create_bind_mount(&config, Platform::Macos).unwrap();
    assert_eq!(mac.target(), "/t");
    assert_eq!(mac.unmount().as_deref(), Some("/t"));
    let err = create_bind_mount(&config, Platform::Other).unwrap_err();
    assert_eq!(err.kind(), ErrorKind::Unsupported);
    assert_eq!(err.message(), "Bind mounts not supported on this platform");
}
