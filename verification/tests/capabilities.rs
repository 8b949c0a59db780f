use a2app_core::capabilities::{all_capabilities, for_hook, for_service, in_group};
use a2app_core::permission::Permission;

#[test]
fn ids_and_wires_are_unique() {
    let catalog = all_capabilities();
    let mut ids: Vec<&str> = catalog.iter().map(|c| c.id).collect();
    ids.sort_unstable();
    ids.dedup();
    assert_eq!(ids.len(), catalog.len(), "duplicate capability id");
    let mut wires: Vec<&str> = catalog.iter().flat_map(|c| c.wire.iter().copied()).collect();
    wires.sort_unstable();
    wires.dedup();
    let total: usize = catalog.iter().map(|c| c.wire.len()).sum();
    assert_eq!(wires.len(), total, "a wire id carried by two capabilities");
}

#[test]
fn every_group_has_capabilities() {
    for perm in Permission::all() {
        assert!(!in_group(perm).is_empty(), "{} has no capabilities", perm.as_str());
    }
}

#[test]
fn services_resolve() {
    assert_eq!(for_service("matrix.room_members").unwrap().id, "matrix.room.members.read");
    assert_eq!(for_hook("on_ipc_message").unwrap().group, Some(Permission::Ipc));
    assert!(for_service("nope").is_none());
}
