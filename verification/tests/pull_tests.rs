use boxlite::home::HomeLayout;
use boxlite::images::CachedImage;
use boxlite::layout::SharedContainerLayout;
use boxlite::pull::after_failed_attempt;
use boxlite::pull::resolve;
use boxlite::pull::PullAction;
use boxlite::pull::PullTable;
use boxlite::pull::ResolveAction;
use boxlite::pull::RetryAction;
use boxlite::rootfs::classify_entry;
use boxlite::rootfs::overlay_lower_dirs;
use boxlite::rootfs::overlay_rootfs;
use boxlite::rootfs::LayerEntry;
use boxlite::vmm::RootfsInit;

fn cached(complete: bool) -> CachedImage {
    CachedImage {
        manifest_digest: "sha256:m".to_string(),
        config_digest: "sha256:c".to_string(),
        layers: vec![],
        cached_at: "t".to_string(),
        complete,
    }
}

#[test]
fn test_concurrent_pulls_fetch_once() {
    let mut table = PullTable::new();
    assert_eq!(table.begin(None, "sha256:a"), PullAction::Fetch);
    for _ in 0..5 {
        assert_eq!(table.begin(None, "sha256:a"), PullAction::Wait);
    }
    assert_eq!(table.begin(None, "sha256:b"), PullAction::Fetch);
    assert!(table.is_in_flight("sha256:a"));
    assert!(table.is_in_flight("sha256:b"));
    assert!(!table.is_in_flight("sha256:c"));
    assert!(table.finish("sha256:a"));
    assert!(!table.finish("sha256:a"));
    assert!(!table.is_in_flight("sha256:a"));
    assert_eq!(table.begin(None, "sha256:b"), PullAction::Wait);
    assert_eq!(table.begin(None, "sha256:a"), PullAction::Fetch);
}

#[test]
fn test_complete_images_are_served_and_partial_ones_resumed() {
    let mut table = PullTable::new();
    let done = cached(true);
    let partial = cached(false);
    assert_eq!(table.begin(Some(&done), "sha256:a"), PullAction::Serve);
    assert!(!table.is_in_flight("sha256:a"));
    assert_eq!(table.begin(Some(&partial), "sha256:a"), PullAction::Fetch);
    assert_eq!(table.begin(Some(&partial), "sha256:a"), PullAction::Wait);
    assert_eq!(table.begin(Some(&done), "sha256:a"), PullAction::Serve);
    assert!(table.is_in_flight("sha256:a"));
}

#[test]
fn test_three_attempts_with_doubling_waits() {
    assert_eq!(after_failed_attempt(1), RetryAction::RetryAfter { millis: 1000 });
    assert_eq!(after_failed_attempt(2), RetryAction::RetryAfter { millis: 2000 });
    assert_eq!(after_failed_attempt(3), RetryAction::GiveUp);
    assert_eq!(after_failed_attempt(4), RetryAction::GiveUp);
    assert_eq!(after_failed_attempt(u32::MAX), RetryAction::GiveUp);
    assert_eq!(after_failed_attempt(0), RetryAction::RetryAfter { millis: 0 });
}

#[test]
fn test_layer_entries() {
    assert_eq!(classify_entry("file.txt"), LayerEntry::Regular);
    assert_eq!(classify_entry(".wh..wh..opq"), LayerEntry::Opaque);
    assert_eq!(
        classify_entry(".wh.file.txt"),
        LayerEntry::Whiteout {
            target: "file.txt".to_string()
        }
    );
    assert_eq!(
        classify_entry(".wh."),
        LayerEntry::Whiteout {
            target: String::new()
        }
    );
    assert_eq!(
        classify_entry(".wh..wh..opq2"),
        LayerEntry::Whiteout {
            target: ".wh..opq2".to_string()
        }
    );
    assert_eq!(classify_entry(".wh"), LayerEntry::Regular);
    assert_eq!(classify_entry("a.wh.b"), LayerEntry::Regular);
    assert_eq!(classify_entry(""), LayerEntry::Regular);
}

#[test]
fn test_overlay_takes_the_layers_topmost_first() {
    let layers = vec![
        "/l/base".to_string(),
        "/l/mid".to_string(),
        "/l/top".to_string(),
    ];
    assert_eq!(
        overlay_lower_dirs(&layers),
        vec![
            "/l/top".to_string(),
            "/l/mid".to_string(),
            "/l/base".to_string()
        ]
    );
    assert!(overlay_lower_dirs(&vec![]).is_empty());
    let layout = SharedContainerLayout::new("/b/mounts/containers/c1");
    match overlay_rootfs(&layers, &layout) {
        RootfsInit::Overlay {
            lower_dirs,
            upper_dir,
            work_dir,
            merged_dir,
        } => {
            assert_eq!(lower_dirs[0], "/l/top");
            assert_eq!(lower_dirs.len(), 3);
            assert_eq!(upper_dir, "/b/mounts/containers/c1/overlayfs/upper");
            assert_eq!(work_dir, "/b/mounts/containers/c1/overlayfs/work");
            assert_eq!(merged_dir, "/b/mounts/containers/c1/rootfs");
        }
        other => panic!("unexpected {:?}", other),
    }
}

#[test]
fn test_lock_and_volume_paths() {
    let home = HomeLayout::new("/h");
    assert_eq!(home.lock_path(0), "/h/locks/0.lock");
    assert_eq!(home.lock_path(42), "/h/locks/42.lock");
    assert_eq!(
        home.lock_path(u64::MAX),
        "/h/locks/18446744073709551615.lock"
    );
    assert_eq!(home.anonymous_volumes_dir(), "/h/volumes/anonymous");
}

#[test]
fn test_registries_are_asked_in_order_and_the_first_answer_wins() {
    let registries = vec![
        "ghcr.io".to_string(),
        "docker.io".to_string(),
        "quay.io".to_string(),
    ];
    assert_eq!(
        resolve(&registries, &vec![]),
        ResolveAction::Ask { registry: 0 }
    );
    assert_eq!(
        resolve(&registries, &vec![None]),
        ResolveAction::Ask { registry: 1 }
    );
    assert_eq!(
        resolve(
            &registries,
            &vec![None, Some("docker.io/library/alpine@sha256:aa".to_string())]
        ),
        ResolveAction::Resolved {
            image: "docker.io/library/alpine@sha256:aa".to_string()
        }
    );
    assert_eq!(
        resolve(
            &registries,
            &vec![
                None,
                Some("docker.io/library/alpine@sha256:aa".to_string()),
                Some("quay.io/alpine@sha256:bb".to_string()),
            ]
        ),
        ResolveAction::Resolved {
            image: "docker.io/library/alpine@sha256:aa".to_string()
        }
    );
    assert_eq!(
        resolve(&registries, &vec![None, None, None]),
        ResolveAction::Failed
    );
    assert_eq!(resolve(&vec![], &vec![]), ResolveAction::Failed);
}
