use boxlite::image_index::text_le_exec;
use boxlite::image_index::ImageIndexStore;
use boxlite::images::CachedImage;

#[test]
fn test_upsert_and_get() {
    let mut store = ImageIndexStore::new();

    let image = CachedImage {
        manifest_digest: "sha256:abc123".to_string(),
        config_digest: "sha256:config123".to_string(),
        layers: vec!["sha256:layer1".to_string(), "sha256:layer2".to_string()],
        cached_at: "2025-10-24T12:00:00Z".to_string(),
        complete: true,
    };

    store.upsert("python:alpine", &image).unwrap();

    let loaded = store.get("python:alpine").unwrap();
    assert!(loaded.is_some());
    let loaded = loaded.unwrap();
    assert_eq!(loaded.manifest_digest, "sha256:abc123");
    assert_eq!(loaded.config_digest, "sha256:config123");
    assert_eq!(loaded.layers.len(), 2);
    assert!(loaded.complete);
}

#[test]
fn test_upsert_updates_existing() {
    let mut store = ImageIndexStore::new();

    let image1 = CachedImage {
        manifest_digest: "sha256:abc123".to_string(),
        config_digest: "sha256:config123".to_string(),
        layers: vec!["sha256:layer1".to_string()],
        cached_at: "2025-10-24T12:00:00Z".to_string(),
        complete: true,
    };

    store.upsert("python:alpine", &image1).unwrap();

    let image2 = CachedImage {
        manifest_digest: "sha256:def456".to_string(),
        config_digest: "sha256:config456".to_string(),
        layers: vec!["sha256:layer2".to_string()],
        cached_at: "2025-10-25T12:00:00Z".to_string(),
        complete: false,
    };

    store.upsert("python:alpine", &image2).unwrap();

    let loaded = store.get("python:alpine").unwrap().unwrap();
    assert_eq!(loaded.manifest_digest, "sha256:def456");
    assert!(!loaded.complete);

    assert_eq!(store.len().unwrap(), 1);
}

#[test]
fn test_get_nonexistent() {
    let store = ImageIndexStore::new();
    let loaded = store.get("nonexistent:tag").unwrap();
    assert!(loaded.is_none());
}

#[test]
fn test_remove() {
    let mut store = ImageIndexStore::new();

    let image = CachedImage {
        manifest_digest: "sha256:abc123".to_string(),
        config_digest: "sha256:config123".to_string(),
        layers: vec![],
        cached_at: "2025-10-24T12:00:00Z".to_string(),
        complete: true,
    };

    store.upsert("python:alpine", &image).unwrap();
    assert_eq!(store.len().unwrap(), 1);

    let removed = store.remove("python:alpine").unwrap();
    assert!(removed);
    assert_eq!(store.len().unwrap(), 0);

    let removed_again = store.remove("python:alpine").unwrap();
    assert!(!removed_again);
}

#[test]
fn test_len_and_is_empty() {
    let mut store = ImageIndexStore::new();

    assert!(store.is_empty().unwrap());
    assert_eq!(store.len().unwrap(), 0);

    let image = CachedImage {
        manifest_digest: "sha256:abc123".to_string(),
        config_digest: "sha256:config123".to_string(),
        layers: vec![],
        cached_at: "2025-10-24T12:00:00Z".to_string(),
        complete: true,
    };

    store.upsert("python:alpine", &image).unwrap();
    assert!(!store.is_empty().unwrap());
    assert_eq!(store.len().unwrap(), 1);
}

#[test]
fn test_list_all_empty() {
    let store = ImageIndexStore::new();
    let images = store.list_all().unwrap();
    assert_eq!(images.len(), 0);
}

#[test]
fn test_list_all_multiple_ordered() {
    let mut store = ImageIndexStore::new();

    let image1 = CachedImage {
        manifest_digest: "sha256:abc123".to_string(),
        config_digest: "sha256:config123".to_string(),
        layers: vec!["sha256:layer1".to_string()],
        cached_at: "2026-01-21T10:00:00Z".to_string(),
        complete: true,
    };

    let image2 = CachedImage {
        manifest_digest: "sha256:def456".to_string(),
        config_digest: "sha256:config456".to_string(),
        layers: vec!["sha256:layer2".to_string()],
        cached_at: "2026-01-21T14:00:00Z".to_string(),
        complete: true,
    };

    let image3 = CachedImage {
        manifest_digest: "sha256:ghi789".to_string(),
        config_digest: "sha256:config789".to_string(),
        layers: vec!["sha256:layer3".to_string()],
        cached_at: "2026-01-21T08:00:00Z".to_string(),
        complete: true,
    };

    store.upsert("alpine:latest", &image1).unwrap();
    store.upsert("python:alpine", &image2).unwrap();
    store.upsert("nginx:latest", &image3).unwrap();

    let images = store.list_all().unwrap();
    assert_eq!(images.len(), 3);

    assert_eq!(images[0].0, "python:alpine");
    assert_eq!(images[1].0, "alpine:latest");
    assert_eq!(images[2].0, "nginx:latest");
}

#[test]
fn test_index_keeps_order_through_updates() {
    let at = |t: &str| CachedImage {
        manifest_digest: format!("m@{}", t),
        config_digest: "c".to_string(),
        layers: vec![],
        cached_at: t.to_string(),
        complete: true,
    };
    let mut store = ImageIndexStore::new();
    store.upsert("a", &at("2026-01-01")).unwrap();
    store.upsert("b", &at("2026-01-03")).unwrap();
    store.upsert("c", &at("2026-01-02")).unwrap();
    store.upsert("d", &at("2026-01-02")).unwrap();
    let refs = |s: &ImageIndexStore| -> Vec<String> {
        s.list_all().unwrap().into_iter().map(|(r, _)| r).collect()
    };
    assert_eq!(refs(&store), vec!["b", "d", "c", "a"]);
    store.upsert("a", &at("2026-01-04")).unwrap();
    assert_eq!(refs(&store), vec!["a", "b", "d", "c"]);
    store.upsert("b", &at("2025-12-31")).unwrap();
    assert_eq!(refs(&store), vec!["a", "d", "c", "b"]);
    assert_eq!(store.get("b").unwrap().unwrap().manifest_digest, "m@2025-12-31");
    assert!(store.remove("d").unwrap());
    assert_eq!(refs(&store), vec!["a", "c", "b"]);
    assert!(!store.remove("d").unwrap());
    assert_eq!(store.len().unwrap(), 3);
    assert!(store.get("d").unwrap().is_none());
}

#[test]
fn test_text_order_is_the_order_of_strings() {
    let texts = ["", "a", "ab", "b", "B", "2026-01-21T10:00:00Z", "2026-01-21T08:00:00Z", "é", "z"];
    for a in texts {
        for b in texts {
            let av: Vec<char> = a.chars().collect();
            let bv: Vec<char> = b.chars().collect();
            assert_eq!(text_le_exec(&av, &bv), a <= b, "{:?} {:?}", a, b);
        }
    }
}
