use boxlite::error::ErrorKind;
use boxlite::images::check_layer;
use boxlite::images::decode_image_row;
use boxlite::images::decode_image_rows;
use boxlite::images::encode_image_row;
use boxlite::images::get_short_id;
use boxlite::images::image_from_row;
use boxlite::images::layer_file_name;
use boxlite::images::row_from_image;
use boxlite::images::servable;
use boxlite::images::CachedImage;
use boxlite::images::ImageRow;
use boxlite::images::LayerAction;

fn image(layers: Vec<&str>, complete: bool) -> CachedImage {
    CachedImage {
        manifest_digest: "sha256:abc123".to_string(),
        config_digest: "sha256:config123".to_string(),
        layers: layers.into_iter().map(|l| l.to_string()).collect(),
        cached_at: "2025-10-24T12:00:00Z".to_string(),
        complete,
    }
}

#[test]
fn test_get_short_id() {
    assert_eq!(get_short_id("sha256:1234567890abcdef1234"), "1234567890ab");
    assert_eq!(get_short_id("1234567890abcdef1234"), "1234567890ab");
    assert_eq!(get_short_id("short"), "short");
    assert_eq!(get_short_id("sha256:short"), "short");
}

#[test]
fn test_get_short_id_edges() {
    assert_eq!(get_short_id(""), "");
    assert_eq!(get_short_id("sha256:"), "");
    assert_eq!(get_short_id("sha256"), "sha256");
    assert_eq!(get_short_id("123456789012"), "123456789012");
    assert_eq!(get_short_id("1234567890123"), "123456789012");
    assert_eq!(get_short_id("SHA256:abc"), "SHA256:abc");
    assert_eq!(get_short_id("sha256:sha256:abcdefghijkl"), "sha256:abcde");
    assert_eq!(get_short_id("ééééééééééééé"), "éééééééééééé");
}

#[test]
fn test_row_round_trip_through_json() {
    let cached = image(vec!["sha256:layer1", "sha256:la\"yer2", ""], true);
    let row = encode_image_row("python:alpine", &cached).unwrap();
    assert_eq!(row.reference, "python:alpine");
    assert_eq!(row.manifest_digest, "sha256:abc123");
    assert_eq!(row.config_digest, "sha256:config123");
    assert_eq!(row.layers_json, "[\"sha256:layer1\",\"sha256:la\\\"yer2\",\"\"]");
    assert_eq!(row.cached_at, "2025-10-24T12:00:00Z");
    assert_eq!(row.complete, 1);
    let (reference, loaded) = decode_image_row(&row).unwrap();
    assert_eq!(reference, "python:alpine");
    assert_eq!(loaded.manifest_digest, "sha256:abc123");
    assert_eq!(loaded.config_digest, "sha256:config123");
    assert_eq!(loaded.layers, cached.layers);
    assert_eq!(loaded.layers.len(), 3);
    assert!(loaded.complete);
    assert!(servable(&loaded));

    let pending = encode_image_row("a", &image(vec![], false)).unwrap();
    assert_eq!(pending.layers_json, "[]");
    assert_eq!(pending.complete, 0);
    let (_, loaded) = decode_image_row(&pending).unwrap();
    assert!(loaded.layers.is_empty());
    assert!(!loaded.complete);
    assert!(!servable(&loaded));
    assert_eq!(loaded.duplicate().cached_at, loaded.cached_at);
}

#[test]
fn test_rows_that_do_not_hold_layers_are_refused() {
    let row = |json: &str, complete: i32| ImageRow {
        reference: "r".to_string(),
        manifest_digest: "m".to_string(),
        config_digest: "c".to_string(),
        layers_json: json.to_string(),
        cached_at: "t".to_string(),
        complete,
    };
    for bad in ["", "{}", "[1]", "[\"a\"", "null", "\"a\""] {
        let err = decode_image_row(&row(bad, 1)).unwrap_err();
        assert_eq!(err.kind(), ErrorKind::Database, "{:?}", bad);
        assert!(err.message().starts_with("Failed to deserialize layers: "));
    }
    let (_, img) = decode_image_row(&row(" [ \"a\" , \"b\" ] ", 7)).unwrap();
    assert_eq!(img.layers, vec!["a".to_string(), "b".to_string()]);
    assert!(img.complete);
    let (_, img) = decode_image_row(&row("[]", -1)).unwrap();
    assert!(img.complete);

    let rows = vec![row("[\"a\"]", 1), row("[]", 0)];
    let all = decode_image_rows(&rows).unwrap();
    assert_eq!(all.len(), 2);
    assert_eq!(all[0].1.layers, vec!["a".to_string()]);
    assert!(!all[1].1.complete);
    let rows = vec![row("[]", 1), row("oops", 1), row("[]", 1)];
    assert_eq!(decode_image_rows(&rows).unwrap_err().kind(), ErrorKind::Database);
    assert!(decode_image_rows(&vec![]).unwrap().is_empty());
}

#[test]
fn test_codec_failures_carry_the_cause() {
    let r = ImageRow {
        reference: "r".to_string(),
        manifest_digest: "m".to_string(),
        config_digest: "c".to_string(),
        layers_json: "x".to_string(),
        cached_at: "t".to_string(),
        complete: 1,
    };
    let err = image_from_row(&r, Err("expected value".to_string())).unwrap_err();
    assert_eq!(err.message(), "Failed to deserialize layers: expected value");
    let (reference, img) = image_from_row(&r, Ok(vec!["l".to_string()])).unwrap();
    assert_eq!(reference, "r");
    assert_eq!(img.layers, vec!["l".to_string()]);
    let err = row_from_image("r", &image(vec![], true), Err("boom".to_string())).unwrap_err();
    assert_eq!(err.kind(), ErrorKind::Database);
    assert_eq!(err.message(), "Failed to serialize layers: boom");
    let row = row_from_image("r", &image(vec![], true), Ok("[]".to_string())).unwrap();
    assert_eq!(row.layers_json, "[]");
}

#[test]
fn test_only_an_intact_layer_is_served() {
    let content = b"abc".to_vec();
    let name = "ba7816bf8f01cfea414140de5dae2223b00361a396177a9cb410ff61f20015ad";
    assert_eq!(check_layer(name, &content), LayerAction::Serve);
    assert_eq!(check_layer(name, &b"abd".to_vec()), LayerAction::Refetch);
    assert_eq!(check_layer(name, &vec![]), LayerAction::Refetch);
    assert_eq!(
        check_layer(&name.to_uppercase(), &content),
        LayerAction::Refetch
    );
    assert_eq!(check_layer(&format!("sha256:{}", name), &content), LayerAction::Refetch);
    assert_eq!(layer_file_name(&format!("sha256:{}", name)), name);
    assert_eq!(layer_file_name(name), name);
    assert_eq!(layer_file_name("sha256:"), "");
    assert_eq!(
        check_layer(&layer_file_name(&format!("sha256:{}", name)), &content),
        LayerAction::Serve
    );
}
