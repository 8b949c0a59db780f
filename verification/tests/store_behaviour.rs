use a2app_core::manifest::{A2AppScope, MiniAppManifest};
use a2app_core::maps::StrMap;
use a2app_core::permission::Permission;
use a2app_core::registry::AppRegistry;
use a2app_core::store::{
    snapshot_grants_in, Effective, GrantState, PermissionStore, MAX_ACCESS_RECORDS,
};

fn app(id: &str, name: &str, perms: &[&str]) -> MiniAppManifest {
    MiniAppManifest {
        id: id.into(),
        name: name.into(),
        icon: "i".into(),
        tint: 0,
        source: format!("// {id}"),
        allow_net: false,
        permissions: perms.iter().map(|s| s.to_string()).collect(),
        permission_reasons: StrMap::new(),
        capabilities: Vec::new(),
        builtin: false,
        widget: None,
        shortcuts: vec![],
        scope: A2AppScope::Account,
    }
}

#[test]
fn apps_declaring_sorts_by_answer_then_lowercased_name() {
    let reg = AppRegistry::new(vec![
        app("z", "Zed", &["open-url"]),
        app("a", "apple", &["open-url"]),
        app("q", "Quiet", &["open-url"]),
        app("n", "none", &[]),
    ]);
    let mut store = PermissionStore::default();
    store.set("q", Permission::OpenUrl, GrantState::Denied);
    let rows = store.apps_declaring_at(&reg, Permission::OpenUrl, 0);
    let names: Vec<(&str, Effective)> = rows.iter().map(|(m, e)| (m.name.as_str(), *e)).collect();
    // "apple" sorts before "Zed" once lowercased, though 'Z' < 'a' byte-wise.
    assert_eq!(
        names,
        vec![("apple", Effective::Granted), ("Zed", Effective::Granted), ("Quiet", Effective::Denied)]
    );
    assert_eq!(store.permission_tally_at(&reg, Permission::OpenUrl, 0), (2, 3));
    assert_eq!(store.permission_tally(&reg, Permission::Location), (0, 0));
}

#[test]
fn bursts_collapse_and_the_record_stays_bounded() {
    let mut store = PermissionStore::default();
    store.record_access("t", Permission::Location, 100);
    store.record_access("t", Permission::Location, 130);
    let recent = store.recent_access(10);
    assert_eq!(recent.len(), 1);
    assert_eq!(recent[0].at, 130);
    store.record_access("t", Permission::Location, 500);
    store.record_access("u", Permission::Camera, 501);
    let recent = store.recent_access(10);
    assert_eq!(recent.iter().map(|r| r.at).collect::<Vec<_>>(), vec![501, 500, 130]);
    assert_eq!(store.recent_access(1).len(), 1);
    assert_eq!(store.last_access("t", Permission::Location), Some(500));
    assert_eq!(store.last_access("t", Permission::Camera), None);
    assert_eq!(store.use_count("t", Permission::Location), 3);
    for i in 0..(MAX_ACCESS_RECORDS as u64 + 5) {
        store.record_access("w", Permission::Network, 10_000 + i * 100);
    }
    let all = store.recent_access(10_000);
    assert_eq!(all.len(), MAX_ACCESS_RECORDS);
    assert_eq!(all[0].at, 10_000 + (MAX_ACCESS_RECORDS as u64 + 4) * 100);
}

#[test]
fn expiry_reports_in_order_and_skips_unknown_groups() {
    let mut store = PermissionStore::default();
    store.grant_until("b", Permission::Location, 50);
    store.grant_until("a", Permission::Network, 40);
    store.grant_until("a", Permission::Camera, 200);
    let expired = store.expire_timed(100);
    assert_eq!(
        expired,
        vec![("a".to_string(), Permission::Network), ("b".to_string(), Permission::Location)]
    );
    assert_eq!(store.timed_until("a", Permission::Camera, 100), Some(200));
    assert!(store.expire_timed(100).is_empty());
}

#[test]
fn timed_and_one_time_grants_never_beat_a_denial() {
    let m = app("t", "T", &["location"]);
    let mut store = PermissionStore::default();
    store.grant_until("t", Permission::Location, 1000);
    assert_eq!(store.effective_at(&m, Permission::Location, 999), Effective::Granted);
    assert_eq!(store.effective_at(&m, Permission::Location, 1000), Effective::NeedsPrompt);
    store.set("t", Permission::Location, GrantState::Denied);
    store.grant_once("t", Permission::Location);
    assert!(store.has_once("t", Permission::Location));
    assert_eq!(store.effective_at(&m, Permission::Location, 10), Effective::Denied);
    // A durable answer ends the one-time grant.
    store.set("t", Permission::Location, GrantState::Ask);
    assert!(!store.has_once("t", Permission::Location));
    store.grant_once("t", Permission::Location);
    assert_eq!(store.effective_at(&m, Permission::Location, 2000), Effective::Granted);
    assert!(store.clear_once_for("t"));
    assert!(!store.clear_once_for("t"));
}

#[test]
fn declared_states_skip_unknown_and_repeated_ids() {
    let m = app("t", "T", &["camera", "bogus", "network", "camera"]);
    let mut store = PermissionStore::default();
    store.set("t", Permission::Network, GrantState::Granted);
    assert_eq!(
        store.declared_states(&m),
        vec![(Permission::Camera, GrantState::Ask), (Permission::Network, GrantState::Granted)]
    );
}

#[test]
fn granted_names_list_groups_then_capabilities() {
    let m = app("t", "T", &["clipboard-write"]);
    let store = PermissionStore::default();
    let caps = store.granted_caps_at(&m, 0);
    assert_eq!(caps[0], "clipboard-write");
    assert!(caps.iter().any(|c| c == "device.clipboard.write"));
    assert!(!caps.iter().any(|c| c == "network"));
}

#[test]
fn snapshots_deny_unknown_apps() {
    let reg = AppRegistry::new(vec![app("t", "T", &["open-url"]), app("u", "U", &[])]);
    let store = PermissionStore::default();
    let snap = store.snapshot_at(&reg, 0);
    let t = snapshot_grants_in(&snap, "t");
    assert!(t.iter().any(|c| c == "open-url"));
    assert!(snapshot_grants_in(&snap, "u").is_empty());
    assert!(snapshot_grants_in(&snap, "nobody").is_empty());
}

#[test]
fn parts_round_trip_drops_only_one_time_grants() {
    let m = app("t", "T", &["location", "camera"]);
    let mut store = PermissionStore::default();
    store.set("t", Permission::Location, GrantState::Granted);
    store.grant_once("t", Permission::Camera);
    store.grant_until("t", Permission::Network, 77);
    store.record_access("t", Permission::Location, 5);
    store.set_capability("t", "device.camera.capture", GrantState::Denied);
    store.set_strict(true);
    store.restrict("x", "made far too many requests", 1000, 42);
    let back = PermissionStore::from_parts(store.to_parts());
    assert_eq!(back.state("t", Permission::Location), GrantState::Granted);
    assert!(!back.has_once("t", Permission::Camera));
    assert_eq!(back.timed_until("t", Permission::Network, 0), Some(77));
    assert_eq!(back.use_count("t", Permission::Location), 1);
    assert_eq!(back.capability_state("t", "device.camera.capture"), GrantState::Denied);
    assert!(back.strict());
    let r = back.restriction("x").unwrap();
    assert_eq!((r.reason.as_str(), r.at, r.refusals), ("made far too many requests", 1000, 42));
    assert_eq!(back.restricted_apps(), vec!["x".to_string()]);
    assert_eq!(back.effective_at(&m, Permission::Camera, 0), Effective::NeedsPrompt);
}

#[test]
fn unrestricting_restores_the_store() {
    let m = app("t", "T", &["location"]);
    let mut store = PermissionStore::default();
    store.set("t", Permission::Location, GrantState::Granted);
    store.restrict("t", "r", 1, 2);
    assert_eq!(store.effective_at(&m, Permission::Location, 0), Effective::Denied);
    store.unrestrict("t");
    assert!(!store.is_restricted("t"));
    assert!(store.restriction("t").is_none());
    assert_eq!(store.effective_at(&m, Permission::Location, 0), Effective::Granted);
}

#[test]
fn a_cloned_store_keeps_everything() {
    let mut store = PermissionStore::default();
    store.grant_once("t", Permission::Camera);
    store.set("t", Permission::Location, GrantState::Denied);
    let copy = store.clone();
    assert!(copy.has_once("t", Permission::Camera));
    assert_eq!(copy.state("t", Permission::Location), GrantState::Denied);
    let empty = AppRegistry::default();
    assert!(empty.is_empty());
}
