use boxlite::ids::box_id_from_value;
use boxlite::ids::generate_box_id;
use boxlite::ids::is_valid_box_id;
use boxlite::ids::ContainerId;

#[test]
fn test_generate_box_id() {
    let id1 = generate_box_id();
    let id2 = generate_box_id();

    assert_eq!(id1.len(), 26);
    assert_eq!(id2.len(), 26);

    assert_ne!(id1, id2);
}

#[test]
fn test_box_id_shape_and_encoding() {
    for _ in 0..50 {
        let id = generate_box_id();
        assert!(is_valid_box_id(&id), "{}", id);
        assert!(id
            .chars()
            .all(|c| "0123456789ABCDEFGHJKMNPQRSTVWXYZ".contains(c)));
    }
    assert_eq!(box_id_from_value(0), "00000000000000000000000000");
    assert_eq!(box_id_from_value(1), "00000000000000000000000001");
    assert_eq!(box_id_from_value(31), "0000000000000000000000000Z");
    assert_eq!(box_id_from_value(32), "00000000000000000000000010");
    assert_eq!(box_id_from_value(u128::MAX), "7ZZZZZZZZZZZZZZZZZZZZZZZZZ");
    assert_eq!(
        box_id_from_value(0x0123_4567_89AB_CDEF_0123_4567_89AB_CDEF),
        "014D2PF2DBSQQG28T5CY4TQKFF"
    );
    assert!(is_valid_box_id("01HJK4TNRPQSXYZ8WM6NCVT9R5"));
    assert!(is_valid_box_id("LLLLLLLLLLLLLLLLLLLLLLLLLL"));
    assert!(!is_valid_box_id("01HJK4TNRPQSXYZ8WM6NCVT9R"));
    assert!(!is_valid_box_id("01HJK4TNRPQSXYZ8WM6NCVT9R55"));
    assert!(!is_valid_box_id("01HJK4TNRPQSXYZ8WM6NCVT9RI"));
    assert!(!is_valid_box_id("01HJK4TNRPQSXYZ8WM6NCVT9RO"));
    assert!(!is_valid_box_id("01hjk4tnrpqsxyz8wm6ncvt9r5"));
    assert!(!is_valid_box_id(""));
}

#[test]
fn test_container_id_new() {
    let id1 = ContainerId::new();
    let id2 = ContainerId::new();

    assert_eq!(id1.as_str().len(), ContainerId::FULL_LENGTH);
    assert_eq!(id2.as_str().len(), ContainerId::FULL_LENGTH);

    assert_ne!(id1, id2);

    assert!(id1
        .as_str()
        .chars()
        .all(|c| c.is_ascii_hexdigit() && !c.is_uppercase()));
}

#[test]
fn test_container_id_short() {
    let id = ContainerId::new();

    assert_eq!(id.short().len(), ContainerId::SHORT_LENGTH);

    assert!(id.as_str().starts_with(id.short()));
}

#[test]
fn test_container_id_from_str() {
    let valid = "a".repeat(64);
    assert!(ContainerId::parse(&valid).is_some());

    assert!(ContainerId::parse("abc123").is_none());

    let uppercase = "A".repeat(64);
    assert!(ContainerId::parse(&uppercase).is_none());

    let non_hex = "g".repeat(64);
    assert!(ContainerId::parse(&non_hex).is_none());
}

#[test]
fn test_container_id_display() {
    let id = ContainerId::new();
    let display = id.to_string();
    assert_eq!(display, id.as_str());
}

#[test]
fn test_container_id_debug() {
    let id = ContainerId::new();
    let debug = format!("{:?}", id);
    assert!(debug.contains(id.short()));
    assert!(debug.starts_with("ContainerId("));
    assert_eq!(id.debug_string(), format!("ContainerId({})", id.short()));
}

#[test]
fn test_container_id_from_seed_is_sha256_in_hex() {
    let empty = ContainerId::from_seed(&vec![]);
    assert_eq!(
        empty.as_str(),
        "e3b0c44298fc1c149afbf4c8996fb92427ae41e4649b934ca495991b7852b855"
    );
    let abc = ContainerId::from_seed(&vec![b'a', b'b', b'c']);
    assert_eq!(
        abc.as_str(),
        "ba7816bf8f01cfea414140de5dae2223b00361a396177a9cb410ff61f20015ad"
    );
    assert_eq!(abc.short(), "ba7816bf8f01");
    assert!(ContainerId::is_valid(abc.as_str()));
    assert_eq!(ContainerId::parse(abc.as_str()).unwrap(), abc);
    assert_eq!(abc.clone(), abc);
    assert!(!ContainerId::is_valid(&"é".repeat(32)));
    assert!(!ContainerId::is_valid(&"a".repeat(63)));
    assert!(!ContainerId::is_valid(&"a".repeat(65)));
    assert!(ContainerId::is_valid(&"0123456789abcdef".repeat(4)));
}
