use std::path::Path;

use boxlite::error::ErrorKind;
use boxlite::layout::check_path_id;
use boxlite::layout::join;
use boxlite::layout::ContainerLayout;
use boxlite::layout::GuestLayout;
use boxlite::layout::SharedContainerLayout;
use boxlite::layout::SharedGuestLayout;

#[test]
fn test_container_layout_paths() {
    let container = SharedContainerLayout::new("/test/shared/containers/main");

    assert_eq!(container.root(), "/test/shared/containers/main");
    assert_eq!(
        container.overlayfs_dir(),
        "/test/shared/containers/main/overlayfs"
    );
    assert_eq!(
        container.upper_dir(),
        "/test/shared/containers/main/overlayfs/upper"
    );
    assert_eq!(
        container.work_dir(),
        "/test/shared/containers/main/overlayfs/work"
    );
    assert_eq!(
        container.rootfs_dir(),
        "/test/shared/containers/main/rootfs"
    );
}

#[test]
fn test_shared_guest_layout_paths() {
    let layout = SharedGuestLayout::new("/test/shared");

    assert_eq!(layout.base(), "/test/shared");
    assert_eq!(layout.containers_dir(), "/test/shared/containers");
}

#[test]
fn test_shared_guest_layout_container() {
    let layout = SharedGuestLayout::new("/test/shared");
    let container = layout.container("main").unwrap();

    assert_eq!(
        container.overlayfs_dir(),
        "/test/shared/containers/main/overlayfs"
    );
    assert_eq!(
        container.rootfs_dir(),
        "/test/shared/containers/main/rootfs"
    );
}

#[test]
fn test_shared_guest_layout_host_guest_identical() {
    let host = SharedGuestLayout::new("/home/user/.boxlite/boxes/abc/mounts");
    let guest = SharedGuestLayout::new("/run/boxlite/shared");

    let host_rootfs_dir = host.container("main").unwrap().rootfs_dir();
    let guest_rootfs_dir = guest.container("main").unwrap().rootfs_dir();
    let host_rel = Path::new(&host_rootfs_dir)
        .strip_prefix(host.base())
        .unwrap();
    let guest_rel = Path::new(&guest_rootfs_dir)
        .strip_prefix(guest.base())
        .unwrap();
    assert_eq!(host_rel, guest_rel);
}

#[test]
fn layout_test_container_layout_paths() {
    let container = ContainerLayout::new("/run/boxlite/containers/main");

    assert_eq!(container.root(), "/run/boxlite/containers/main");
    assert_eq!(container.rootfs_dir(), "/run/boxlite/containers/main/rootfs");
}

#[test]
fn test_guest_layout_default() {
    let layout = GuestLayout::new();
    assert_eq!(layout.base(), "/run/boxlite");
    assert_eq!(layout.shared_dir(), "/run/boxlite/shared");
}

#[test]
fn test_guest_layout_custom_base() {
    let layout = GuestLayout::with_base("/tmp/test");
    assert_eq!(layout.base(), "/tmp/test");
    assert_eq!(layout.shared_dir(), "/tmp/test/shared");
}

#[test]
fn test_guest_layout_container() {
    let layout = GuestLayout::new();
    let container = layout.container("main").unwrap();

    assert_eq!(container.root(), "/run/boxlite/containers/main");
    assert_eq!(container.rootfs_dir(), "/run/boxlite/containers/main/rootfs");
}

#[test]
fn test_guest_layout_containers_dir() {
    let layout = GuestLayout::new();
    assert_eq!(layout.containers_dir(), "/run/boxlite/containers");
}

#[test]
fn test_guest_layout_container_bundle_dir() {
    let layout = GuestLayout::new();
    assert_eq!(
        layout.container_bundle_dir("main").unwrap(),
        "/run/boxlite/containers/main"
    );
}

#[test]
fn test_guest_layout_container_state_dir() {
    let layout = GuestLayout::new();
    assert_eq!(
        layout.container_state_dir("main").unwrap(),
        "/run/boxlite/containers/main/state"
    );
}

#[test]
fn test_guest_layout_shared_access() {
    let layout = GuestLayout::new();

    let shared_container = layout.shared().container("main").unwrap();
    assert_eq!(
        shared_container.overlayfs_dir(),
        "/run/boxlite/shared/containers/main/overlayfs"
    );
    assert_eq!(
        shared_container.rootfs_dir(),
        "/run/boxlite/shared/containers/main/rootfs"
    );
}

#[test]
fn test_join_agrees_with_standard_paths() {
    for (base, component) in [
        ("/a", "b"),
        ("/a/", "b"),
        ("", "b"),
        ("/a", "/b"),
        ("/a", ""),
        ("", ""),
        ("a/b", "c/d"),
        ("/", "x"),
        ("rel", "/abs"),
    ] {
        let expected = Path::new(base).join(component);
        assert_eq!(
            join(base, component),
            expected.to_str().unwrap(),
            "{:?} + {:?}",
            base,
            component
        );
    }
}

#[test]
fn test_layout_refuses_unsafe_identifiers() {
    let layout = GuestLayout::new();
    for bad in ["a/b", "..", "x..y", "/", "a\nb", "tab\there", "\u{7f}", "\u{85}"] {
        let err = layout.container_bundle_dir(bad).unwrap_err();
        assert_eq!(err.kind(), ErrorKind::Config, "{:?}", bad);
        assert!(layout.container_state_dir(bad).is_err());
        assert!(layout.container(bad).is_err());
        assert!(layout.shared().container(bad).is_err());
        assert!(check_path_id(bad).is_err());
    }
    for good in ["main", "a.b", ".", "with space", "", "01HJK4TNRPQSXYZ8WM6NCVT9R5", "é"] {
        assert!(check_path_id(good).is_ok(), "{:?}", good);
        assert!(layout.container(good).is_ok());
    }
    assert_eq!(
        check_path_id("a/b").unwrap_err().message(),
        "invalid identifier \"a/b\": must not contain '/', '..' or control characters"
    );
}

#[test]
fn test_prepare_dirs_lists_what_to_create() {
    let shared = SharedContainerLayout::new("/s/containers/c1");
    assert_eq!(
        shared.prepare_dirs(),
        vec![
            "/s/containers/c1/overlayfs/upper".to_string(),
            "/s/containers/c1/overlayfs/work".to_string(),
            "/s/containers/c1/rootfs".to_string(),
        ]
    );
    assert_eq!(
        ContainerLayout::new("/r/c").prepare_dirs(),
        vec!["/r/c/rootfs".to_string()]
    );
    assert_eq!(
        GuestLayout::with_base("/g").prepare_base_dirs(),
        vec!["/g/shared".to_string()]
    );
    let copy = GuestLayout::with_base("/g").clone();
    assert_eq!(copy.shared().base(), "/g/shared");
}
