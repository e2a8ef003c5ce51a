use boxlite::error::ErrorKind;
use boxlite::home::fits_in;
use boxlite::home::HomeLayout;
use boxlite::home::SOCKET_PATH_MAX;

#[test]
fn test_home_paths() {
    let home = HomeLayout::new("/home/u/.boxlite");
    assert_eq!(home.home(), "/home/u/.boxlite");
    assert_eq!(home.database_path(), "/home/u/.boxlite/db/boxlite.sqlite");
    assert_eq!(home.images_dir(), "/home/u/.boxlite/images");
    assert_eq!(
        home.blob_path("abc123").unwrap(),
        "/home/u/.boxlite/images/blobs/sha256/abc123"
    );
    assert_eq!(
        home.layer_dir("abc123").unwrap(),
        "/home/u/.boxlite/images/layers/abc123"
    );
    assert_eq!(home.boxes_dir(), "/home/u/.boxlite/boxes");
    assert_eq!(home.clone().home(), "/home/u/.boxlite");
    for bad in ["../x", "a/b", "x\u{0}y"] {
        assert_eq!(home.blob_path(bad).unwrap_err().kind(), ErrorKind::Config);
        assert!(home.layer_dir(bad).is_err());
        assert!(home.box_layout(bad).is_err());
    }
}

#[test]
fn test_box_paths() {
    let home = HomeLayout::new("/home/u/.boxlite");
    let id = "01HJK4TNRPQSXYZ8WM6NCVT9R5";
    let b = home.box_layout(id).unwrap();
    let root = format!("/home/u/.boxlite/boxes/{}", id);
    assert_eq!(b.root(), root);
    assert_eq!(b.pid_file(), format!("{}/shim.pid", root));
    assert_eq!(b.config_file(), format!("{}/config.json", root));
    assert_eq!(b.root_disk(), format!("{}/root.qcow2", root));
    assert_eq!(b.rootfs_dir(), format!("{}/rootfs", root));
    assert_eq!(b.mounts().base(), format!("{}/mounts", root));
    assert_eq!(
        b.mounts().container("c1").unwrap().rootfs_dir(),
        format!("{}/mounts/containers/c1/rootfs", root)
    );
    assert_eq!(b.sockets_dir(), format!("{}/sockets", root));
    assert_eq!(b.grpc_socket(), format!("{}/sockets/grpc.sock", root));
    assert_eq!(b.ready_socket(), format!("{}/sockets/ready.sock", root));
}

#[test]
fn test_sockets_move_when_their_path_would_be_too_long() {
    let id = "01HJK4TNRPQSXYZ8WM6NCVT9R5";
    // {home}/boxes/{id}/sockets/ready.sock is 52 bytes longer than {home}.
    let fits = format!("/{}", "h".repeat(50));
    let b = HomeLayout::new(&fits).box_layout(id).unwrap();
    assert_eq!(b.ready_socket().len(), 103);
    assert_eq!(b.sockets_dir(), format!("{}/boxes/{}/sockets", fits, id));

    let too_long = format!("/{}", "h".repeat(51));
    let b = HomeLayout::new(&too_long).box_layout(id).unwrap();
    assert_eq!(b.sockets_dir(), format!("/tmp/bl/{}", id));
    assert_eq!(b.ready_socket(), format!("/tmp/bl/{}/ready.sock", id));
    assert_eq!(b.grpc_socket(), format!("/tmp/bl/{}/grpc.sock", id));
    assert_eq!(b.root(), format!("{}/boxes/{}", too_long, id));
    assert!(b.ready_socket().len() <= SOCKET_PATH_MAX);

    let wide = format!("/{}", "é".repeat(26));
    let b = HomeLayout::new(&wide).box_layout(id).unwrap();
    assert_eq!(b.sockets_dir(), format!("/tmp/bl/{}", id));
    let narrow = format!("/{}", "é".repeat(25));
    let b = HomeLayout::new(&narrow).box_layout(id).unwrap();
    assert_eq!(b.ready_socket().len(), 103);
    assert_eq!(b.sockets_dir(), format!("{}/boxes/{}/sockets", narrow, id));
}

#[test]
fn test_fits_in_counts_bytes() {
    assert!(fits_in("", 0));
    assert!(fits_in("abc", 3));
    assert!(!fits_in("abc", 2));
    assert!(fits_in("é", 2));
    assert!(!fits_in("é", 1));
    assert!(fits_in("€", 3));
    assert!(!fits_in("€", 2));
    assert!(fits_in("😀", 4));
    assert!(!fits_in("😀", 3));
    for s in ["", "a", "é€😀", "/tmp/bl/x"] {
        assert!(fits_in(s, s.len()));
        if !s.is_empty() {
            assert!(!fits_in(s, s.len() - 1));
        }
    }
}
