use boxlite::config::BoxConfig;
use boxlite::config::ContainerRuntimeConfig;
use boxlite::error::ErrorKind;
use boxlite::ids::ContainerId;
use boxlite::manager::BoxManager;
use boxlite::manager::Lookup;
use boxlite::options::BoxOptions;
use boxlite::options::RootfsSpec;
use boxlite::state::BoxState;
use boxlite::state::BoxStatus;
use boxlite::vmm::Transport;
use boxlite::vmm::VmmKind;

fn config(id: &str, name: Option<&str>) -> BoxConfig {
    BoxConfig {
        id: id.to_string(),
        name: name.map(|n| n.to_string()),
        created_at: 1,
        container: ContainerRuntimeConfig {
            id: ContainerId::parse(&"ef".repeat(32)).unwrap(),
            image: RootfsSpec::Image("alpine:latest".to_string()),
            image_config: None,
        },
        options: BoxOptions::default(),
        engine_kind: VmmKind::Libkrun,
        transport: Transport::unix("/tmp/grpc.sock"),
        box_home: format!("/home/boxes/{}", id),
        ready_socket_path: "/tmp/ready.sock".to_string(),
    }
}

#[test]
fn test_add_and_find() {
    let mut m = BoxManager::new();
    assert!(m.is_empty());
    m.add_box(config("01HJK4TNRPQSAAAAAAAAAAAAAA", Some("web")), BoxState::new_at(1))
        .unwrap();
    m.add_box(config("01HJK4TNRPQSBBBBBBBBBBBBBB", None), BoxState::new_at(2))
        .unwrap();
    m.add_box(config("01HJK5ZZZZZZCCCCCCCCCCCCCC", Some("db")), BoxState::new_at(3))
        .unwrap();
    assert_eq!(m.len(), 3);
    assert_eq!(m.lookup("web"), Lookup::Found { index: 0 });
    assert_eq!(m.lookup("db"), Lookup::Found { index: 2 });
    assert_eq!(m.lookup("01HJK4TNRPQSBBBBBBBBBBBBBB"), Lookup::Found { index: 1 });
    assert_eq!(m.lookup("01HJK4TNRPQSB"), Lookup::Found { index: 1 });
    assert_eq!(m.lookup("01HJK5ZZZZZZ"), Lookup::Found { index: 2 });
    assert_eq!(m.lookup("01HJK4TNRPQS"), Lookup::Ambiguous);
    assert_eq!(m.lookup("01HJK5ZZZZZ"), Lookup::Missing);
    assert_eq!(m.lookup("01HJK4TNRPQSX"), Lookup::Missing);
    assert_eq!(m.lookup("nobody"), Lookup::Missing);
    assert_eq!(m.lookup(""), Lookup::Missing);
    let row = m.get_by_id_or_name("web").unwrap().unwrap();
    assert_eq!(row.config.id, "01HJK4TNRPQSAAAAAAAAAAAAAA");
    assert!(m.get_by_id_or_name("nobody").unwrap().is_none());
    let err = m.get_by_id_or_name("01HJK4TNRPQS").unwrap_err();
    assert_eq!(err.kind(), ErrorKind::InvalidState);
    assert_eq!(
        err.message(),
        "ambiguous id prefix '01HJK4TNRPQS': more than one box matches"
    );
    assert_eq!(m.row(1).config.name, None);
    assert_eq!(m.list().len(), 3);
    let infos = m.list_info();
    assert_eq!(infos.len(), 3);
    assert_eq!(infos[2].name.as_deref(), Some("db"));
    assert_eq!(infos[0].image, "alpine:latest");
}

#[test]
fn test_a_name_wins_over_an_identifier() {
    let mut m = BoxManager::new();
    m.add_box(config("01HJK4TNRPQSAAAAAAAAAAAAAA", None), BoxState::new_at(1))
        .unwrap();
    m.add_box(
        config("01HJK4TNRPQSBBBBBBBBBBBBBB", Some("01HJK4TNRPQSAAAAAAAAAAAAAA")),
        BoxState::new_at(2),
    )
    .unwrap();
    assert_eq!(
        m.lookup("01HJK4TNRPQSAAAAAAAAAAAAAA"),
        Lookup::Found { index: 1 }
    );
}

#[test]
fn test_names_and_identifiers_are_unique() {
    let mut m = BoxManager::new();
    m.add_box(config("A1", Some("web")), BoxState::new_at(1)).unwrap();
    let err = m
        .add_box(config("A2", Some("web")), BoxState::new_at(1))
        .unwrap_err();
    assert_eq!(err.kind(), ErrorKind::AlreadyExists);
    assert_eq!(err.message(), "box with name 'web' already exists");
    let err = m.add_box(config("A1", None), BoxState::new_at(1)).unwrap_err();
    assert_eq!(err.kind(), ErrorKind::AlreadyExists);
    assert_eq!(err.message(), "box with id 'A1' already exists");
    assert_eq!(m.len(), 1);
    m.add_box(config("A2", None), BoxState::new_at(1)).unwrap();
    m.add_box(config("A3", None), BoxState::new_at(1)).unwrap();
    assert_eq!(m.len(), 3);
}

#[test]
fn test_save_and_remove() {
    let mut m = BoxManager::new();
    m.add_box(config("A1", Some("web")), BoxState::new_at(1)).unwrap();
    m.add_box(config("A2", None), BoxState::new_at(1)).unwrap();
    let mut state = BoxState::new_at(5);
    state.status = BoxStatus::Running;
    state.pid = Some(9);
    m.save_box("A2", &state).unwrap();
    assert_eq!(m.row(1).state, state);
    assert_eq!(m.row(0).state.status, BoxStatus::Configured);
    let err = m.save_box("A9", &state).unwrap_err();
    assert_eq!(err.kind(), ErrorKind::NotFound);
    assert_eq!(err.message(), "box not found: A9");

    let row = m.remove("A1").unwrap();
    assert_eq!(row.config.name.as_deref(), Some("web"));
    assert_eq!(m.len(), 1);
    assert_eq!(m.lookup("web"), Lookup::Missing);
    let err = m.remove("A1").unwrap_err();
    assert_eq!(err.kind(), ErrorKind::NotFound);
    assert_eq!(m.len(), 1);
    m.add_box(config("A1", Some("web")), BoxState::new_at(1)).unwrap();
    assert_eq!(m.lookup("web"), Lookup::Found { index: 1 });
}
