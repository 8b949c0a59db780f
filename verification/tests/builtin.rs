use a2app_core::builtin::{builtin_apps_from, builtin_file, declared_permissions, declared_reasons, BUILTIN_COUNT};
use a2app_core::permission::Permission;

#[test]
fn builtins_declare_their_stock_permissions() {
    assert_eq!(
        declared_permissions("room-peek"),
        vec!["matrix-room-info".to_string(), "matrix-room-read".to_string(), "matrix-room-send".to_string()]
    );
    assert_eq!(declared_permissions("room-pins"), vec!["matrix-room-read".to_string()]);
    assert!(declared_permissions("unknown").is_empty());
    let r = declared_reasons("roll-call");
    assert_eq!(r.get("matrix-profile").unwrap(), "Shows who is rolling.");
    assert_eq!(r.get("matrix-room-send").unwrap(), "Posts your roll into this room.");
    assert_eq!(r.len(), 2);
    assert!(declared_reasons("room-info").contains_key("matrix-room-info"));
}

#[test]
fn builtin_manifests_are_normalized() {
    let sources: Vec<String> = (0..BUILTIN_COUNT).map(|i| format!("// {}", builtin_file(i))).collect();
    let apps = builtin_apps_from(sources);
    assert_eq!(apps.len(), 6);
    assert_eq!(apps[0].id, "room-peek");
    assert_eq!(apps[0].name, "Room Peek");
    assert_eq!(apps[0].tint, 0x4A90D9);
    assert_eq!(apps[0].source, "// room_peek.splash");
    assert_eq!(apps[5].id, "room-threads");
    for m in &apps {
        assert!(m.builtin);
        assert!(m.widget.is_none());
        assert!(!m.allow_net);
    }
    assert!(apps[1].declares(Permission::MatrixProfile));
    assert_eq!(apps[1].reason_for(Permission::MatrixRoomSend), Some("Posts your roll into this room."));
}

/// Each built-in gives a reason for exactly what it declares, and its
/// manifest carries those same tables.
#[test]
fn builtin_tables_agree_with_their_manifests() {
    let sources: Vec<String> = (0..BUILTIN_COUNT).map(|i| format!("// {}", builtin_file(i))).collect();
    for m in builtin_apps_from(sources) {
        let perms = declared_permissions(&m.id);
        let reasons = declared_reasons(&m.id);
        assert!(!perms.is_empty());
        assert_eq!(m.permissions, perms);
        let mut keys = reasons.keys();
        let mut sorted = perms.clone();
        keys.sort();
        sorted.sort();
        assert_eq!(keys, sorted);
        for p in &perms {
            assert!(!reasons.get(p).unwrap().is_empty());
            assert_eq!(m.permission_reasons.get(p), reasons.get(p));
        }
        assert_eq!(m.permission_reasons.len(), reasons.len());
        assert!(!m.allow_net);
    }
}
