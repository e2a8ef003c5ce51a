use boxlite::perms::Owner;
use boxlite::perms::OwnershipFixer;
use boxlite::registry::keep_alive;
use boxlite::registry::ExecutionRegistry;
use boxlite::registry::ExecutionState;
use boxlite::registry::ShutdownAction;
use boxlite::volumes::ContainerVolumeManager;
use boxlite::volumes::GuestVolumeManager;

#[test]
fn test_registry_register_and_get() {
    let mut registry = ExecutionRegistry::new();
    assert!(!registry.contains("e1"));
    assert_eq!(registry.get("e1"), None);
    registry.register("e1".to_string(), ExecutionState { pid: None });
    registry.register("e2".to_string(), ExecutionState { pid: Some(20) });
    assert!(registry.contains("e1"));
    assert_eq!(registry.get("e2"), Some(ExecutionState { pid: Some(20) }));
    registry.register("e1".to_string(), ExecutionState { pid: Some(10) });
    assert_eq!(registry.get("e1"), Some(ExecutionState { pid: Some(10) }));
    registry.register("e3".to_string(), ExecutionState { pid: None });
    assert_eq!(
        registry.with_process(),
        vec![("e1".to_string(), 10), ("e2".to_string(), 20)]
    );
    assert!(!registry.contains("e"));
}

#[test]
fn test_registry_shutdown_decisions() {
    let registry = ExecutionRegistry::new();
    assert_eq!(registry.shutdown_all(0, 0, 1000), ShutdownAction::Finished);
    assert_eq!(registry.shutdown_all(0, 5000, 1000), ShutdownAction::Finished);
    assert_eq!(
        registry.shutdown_all(2, 0, 1000),
        ShutdownAction::Sleep { millis: 100 }
    );
    assert_eq!(
        registry.shutdown_all(2, 999, 1000),
        ShutdownAction::Sleep { millis: 100 }
    );
    assert_eq!(registry.shutdown_all(2, 1000, 1000), ShutdownAction::KillRemaining);
    assert_eq!(registry.shutdown_all(1, 0, 0), ShutdownAction::KillRemaining);
}

#[test]
fn test_keep_alive_filters_in_order() {
    let processes = vec![
        ("a".to_string(), 1),
        ("b".to_string(), 2),
        ("c".to_string(), 3),
    ];
    assert_eq!(
        keep_alive(&processes, &vec![true, false, true]),
        vec![("a".to_string(), 1), ("c".to_string(), 3)]
    );
    assert!(keep_alive(&processes, &vec![false, false, false]).is_empty());
    assert_eq!(keep_alive(&processes, &vec![true, true, true]), processes);
    assert!(keep_alive(&vec![], &vec![]).is_empty());
}

#[test]
fn test_ownership_is_judged_from_the_root_and_five_entries() {
    let me = Owner { uid: 1000, gid: 1000 };
    let other = Owner { uid: 0, gid: 0 };
    assert!(OwnershipFixer::ownership_matches(Some(me), &vec![], me));
    assert!(!OwnershipFixer::ownership_matches(None, &vec![], me));
    assert!(!OwnershipFixer::ownership_matches(Some(other), &vec![], me));
    assert!(!OwnershipFixer::ownership_matches(
        Some(Owner { uid: 1000, gid: 0 }),
        &vec![],
        me
    ));
    assert!(OwnershipFixer::ownership_matches(
        Some(me),
        &vec![Some(me), None, Some(me)],
        me
    ));
    assert!(!OwnershipFixer::ownership_matches(
        Some(me),
        &vec![Some(me), None, Some(other)],
        me
    ));
    assert!(!OwnershipFixer::ownership_matches(
        Some(me),
        &vec![None, None, None, None, Some(other)],
        me
    ));
    assert!(OwnershipFixer::ownership_matches(
        Some(me),
        &vec![None, None, None, None, Some(me), Some(other)],
        me
    ));
}

#[test]
fn test_ownership_fix_command() {
    let me = Owner { uid: 501, gid: 20 };
    assert_eq!(OwnershipFixer::owner_arg(me), "501:20");
    assert_eq!(
        OwnershipFixer::owner_arg(Owner { uid: 0, gid: u32::MAX }),
        "0:4294967295"
    );
    assert!(OwnershipFixer::fix_if_needed("/rootfs", Some(me), &vec![Some(me)], me).is_none());
    let cmd = OwnershipFixer::fix_if_needed("/rootfs", Some(Owner { uid: 0, gid: 0 }), &vec![], me)
        .unwrap();
    assert_eq!(cmd.program, "chown");
    assert_eq!(
        cmd.args,
        vec!["-R".to_string(), "501:20".to_string(), "/rootfs".to_string()]
    );
}

#[test]
fn test_container_volumes() {
    let mut guest = GuestVolumeManager::new();
    let mut container = ContainerVolumeManager::new();
    assert!(container.build_container_mounts().is_empty());
    container.add_volume(&mut guest, "/host/data".to_string(), "/run/vol/0", "/data", false);
    container.add_bind("/run/disk", "/scratch", true);
    container.add_volume(&mut guest, "/host/ro".to_string(), "/run/vol/1", "/ro", true);
    let mounts = container.build_container_mounts();
    assert_eq!(mounts.len(), 3);
    assert_eq!(mounts[0].source, "/run/vol/0");
    assert_eq!(mounts[0].destination, "/data");
    assert!(!mounts[0].read_only);
    assert_eq!(mounts[1].source, "/run/disk");
    assert_eq!(mounts[1].destination, "/scratch");
    assert!(mounts[1].read_only);
    assert_eq!(mounts[2].destination, "/ro");
    assert_eq!(guest.shares().len(), 2);
    assert_eq!(guest.shares()[0].tag, "vol0");
    assert_eq!(guest.shares()[0].host_path, "/host/data");
    assert_eq!(guest.shares()[0].guest_path, "/run/vol/0");
    assert_eq!(guest.shares()[1].tag, "vol1");
    assert!(guest.shares()[1].read_only);
    assert_eq!(guest.next_auto_tag(), "vol2");
    assert_eq!(guest.next_auto_tag(), "vol3");
    let shares = guest.build_fs_shares();
    assert_eq!(shares.shares().len(), 2);
    assert_eq!(shares.shares()[1].tag, "vol1");
    assert_eq!(shares.shares()[1].host_path, "/host/ro");
    assert!(ContainerVolumeManager::default()
        .build_container_mounts()
        .is_empty());
}
