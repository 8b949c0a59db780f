use a2app_core::capabilities::by_id;
use a2app_core::manifest::{A2AppScope, MiniAppManifest};
use a2app_core::maps::StrMap;
use a2app_core::permission::Permission;
use a2app_core::store::{Effective, GrantState, PermissionStore};

fn manifest(perms: &[&str]) -> MiniAppManifest {
    MiniAppManifest {
        id: "t".into(),
        name: "T".into(),
        icon: "t".into(),
        tint: 0,
        source: String::new(),
        allow_net: false,
        permissions: perms.iter().map(|s| s.to_string()).collect(),
        permission_reasons: StrMap::new(),
        capabilities: Vec::new(),
        builtin: false,
        widget: None,
        shortcuts: vec![],
        scope: A2AppScope::Account,
    }
}

#[test]
fn undeclared_is_never_grantable() {
    let mut store = PermissionStore::default();
    let m = manifest(&[]);
    assert_eq!(store.effective(&m, Permission::Network), Effective::Undeclared);
    // Even a (stray) stored grant can't override a missing declaration.
    store.set("t", Permission::Network, GrantState::Granted);
    assert_eq!(store.effective(&m, Permission::Network), Effective::Undeclared);
    assert!(store.granted_caps(&m).is_empty());
}

#[test]
fn tiers_default_correctly_and_answers_stick() {
    let mut store = PermissionStore::default();
    let m = manifest(&["network", "open-url"]);
    // Runtime tier prompts; normal tier auto-grants.
    assert_eq!(store.effective(&m, Permission::Network), Effective::NeedsPrompt);
    assert_eq!(store.effective(&m, Permission::OpenUrl), Effective::Granted);
    store.set("t", Permission::Network, GrantState::Granted);
    assert_eq!(store.effective(&m, Permission::Network), Effective::Granted);
    // Group ids first, then the capability ids they unlock.
    let caps = store.granted_caps(&m);
    assert!(caps.iter().any(|c| c == "network") && caps.iter().any(|c| c == "open-url"));
    assert!(caps.iter().any(|c| c == "network.http") && caps.iter().any(|c| c == "device.url.open"));
    // The user can shut off a normal-tier permission too.
    store.set("t", Permission::OpenUrl, GrantState::Denied);
    assert_eq!(store.effective(&m, Permission::OpenUrl), Effective::Denied);
    let caps = store.granted_caps(&m);
    assert!(caps.iter().any(|c| c == "network"));
    assert!(!caps.iter().any(|c| c == "open-url" || c == "device.url.open"));
}

#[test]
fn matrix_tiers_split_read_write_from_info() {
    let store = PermissionStore::default();
    let m = manifest(&["matrix-room-info", "matrix-room-read", "matrix-room-send", "matrix-profile"]);
    // Room details and identity auto-grant; reading and sending prompt.
    assert_eq!(store.effective(&m, Permission::MatrixRoomInfo), Effective::Granted);
    assert_eq!(store.effective(&m, Permission::MatrixProfile), Effective::Granted);
    assert_eq!(store.effective(&m, Permission::MatrixRoomRead), Effective::NeedsPrompt);
    assert_eq!(store.effective(&m, Permission::MatrixRoomSend), Effective::NeedsPrompt);
}

#[test]
fn normalize_translates_legacy_allow_net_both_ways() {
    let mut m = manifest(&[]);
    m.allow_net = true;
    m.normalize_permissions();
    assert!(m.declares(Permission::Network));
    assert!(m.allow_net);

    let mut m2 = manifest(&["network"]);
    m2.allow_net = false;
    m2.normalize_permissions();
    assert!(m2.allow_net, "declaration backfills the legacy flag");
}

#[test]
fn uninstall_resets_to_ask() {
    let mut store = PermissionStore::default();
    let m = manifest(&["location"]);
    store.set("t", Permission::Location, GrantState::Granted);
    assert!(store.is_granted(&m, Permission::Location));
    store.remove_app("t");
    assert_eq!(store.effective(&m, Permission::Location), Effective::NeedsPrompt);
}

/// Strict mode is the answer to "an imported app got open-url for free":
/// with it on, even a normal tier has to be allowed on purpose.
#[test]
fn strict_mode_stops_normal_tiers_auto_granting() {
    let mut store = PermissionStore::default();
    let m = manifest(&["open-url"]);
    assert_eq!(store.effective(&m, Permission::OpenUrl), Effective::Granted);
    store.set_strict(true);
    assert_eq!(store.effective(&m, Permission::OpenUrl), Effective::NeedsPrompt);
    // An explicit answer still wins over the default either way.
    store.set("t", Permission::OpenUrl, GrantState::Granted);
    assert_eq!(store.effective(&m, Permission::OpenUrl), Effective::Granted);
}

/// A timed grant works until its clock runs out, then simply stops,
/// without turning into a stored "denied" the user never chose.
#[test]
fn timed_grants_expire_on_their_own() {
    let mut store = PermissionStore::default();
    let now = 1_000_000;
    store.grant_until("t", Permission::Location, now + 3600);
    assert!(store.timed_until("t", Permission::Location, now).is_some());
    let expired = store.expire_timed(now + 10);
    assert!(expired.is_empty(), "not due yet");
    let expired = store.expire_timed(now + 3601);
    assert_eq!(expired, vec![("t".to_string(), Permission::Location)]);
    assert!(store.timed_until("t", Permission::Location, now + 3601).is_none());
    assert_eq!(store.state("t", Permission::Location), GrantState::Ask);
}

/// Bulk actions: one tap to shut an app out, one to start over.
#[test]
fn block_all_and_reset_all() {
    let mut store = PermissionStore::default();
    let m = manifest(&["network", "open-url"]);
    store.block_all(&m);
    assert_eq!(store.effective(&m, Permission::Network), Effective::Denied);
    assert_eq!(store.effective(&m, Permission::OpenUrl), Effective::Denied);
    store.reset_all();
    assert_eq!(store.effective(&m, Permission::Network), Effective::NeedsPrompt);
    assert_eq!(store.effective(&m, Permission::OpenUrl), Effective::Granted);
}

/// Uses are counted per capability, and an uninstall forgets them.
#[test]
fn use_counts_accumulate_and_reset_with_the_app() {
    let mut store = PermissionStore::default();
    store.record_access("t", Permission::Location, 100);
    store.record_access("t", Permission::Location, 500);
    assert_eq!(store.use_count("t", Permission::Location), 2);
    store.remove_app("t");
    assert_eq!(store.use_count("t", Permission::Location), 0);
}

#[test]
fn ids_round_trip() {
    for p in Permission::all() {
        assert_eq!(Permission::from_str(p.as_str()), Some(p));
    }
    assert_eq!(Permission::from_str("nope"), None);
    // Dropped ids stay dropped, so old bundles carrying them lose the
    // declaration instead of gaining a fake capability.
    assert_eq!(Permission::from_str("background"), None);
    assert_eq!(Permission::from_str("storage-large"), None);
}

/// A restricted app holds nothing, whatever it was granted before;
/// checked at `effective`, so every capability path inherits it.
#[test]
fn a_restricted_app_loses_every_capability() {
    let m = manifest(&["location", "clipboard-write"]);
    let mut store = PermissionStore::default();
    store.set("t", Permission::Location, GrantState::Granted);
    assert_eq!(store.effective(&m, Permission::Location), Effective::Granted);
    assert!(store.granted_caps(&m).iter().any(|c| c == "location"));

    store.restrict("t", "made far too many requests", 1000, 42);
    assert_eq!(store.effective(&m, Permission::Location), Effective::Denied);
    assert_eq!(
        store.effective(&m, Permission::ClipboardWrite),
        Effective::Denied,
        "an auto-granted normal tier is off too"
    );
    assert!(store.granted_caps(&m).is_empty());

    // Lifting it restores exactly what was there before, nothing more.
    store.unrestrict("t");
    assert_eq!(store.effective(&m, Permission::Location), Effective::Granted);
    assert!(store.granted_caps(&m).iter().any(|c| c == "location"));
}

/// Tidying up grants must not quietly free an app the host stopped.
#[test]
fn resetting_grants_leaves_restrictions_alone() {
    let mut store = PermissionStore::default();
    store.set("t", Permission::Location, GrantState::Granted);
    store.restrict("t", "misbehaved", 1000, 1);
    store.reset_all();
    assert!(store.is_restricted("t"), "a stop is not a grant");
    assert_eq!(store.state("t", Permission::Location), GrantState::Ask);
}

/// A capability answer sits under its group: Ask follows the group,
/// an explicit answer overrides it, and a blocked group wins regardless.
#[test]
fn capability_overrides_layer_under_groups() {
    let mut store = PermissionStore::default();
    let m = manifest(&["matrix-room-read"]);
    let members = by_id("matrix.room.members.read").unwrap();
    let pins = by_id("matrix.room.pins.read").unwrap();
    assert_eq!(store.effective_capability(&m, &members), Effective::NeedsPrompt);
    store.set("t", Permission::MatrixRoomRead, GrantState::Granted);
    assert_eq!(store.effective_capability(&m, &members), Effective::Granted);
    store.set_capability("t", members.id, GrantState::Denied);
    assert_eq!(store.effective_capability(&m, &members), Effective::Denied);
    assert_eq!(store.effective_capability(&m, &pins), Effective::Granted);
    store.set_capability("t", pins.id, GrantState::Granted);
    store.set("t", Permission::MatrixRoomRead, GrantState::Denied);
    assert_eq!(store.effective_capability(&m, &pins), Effective::Denied);
    let other = by_id("device.clipboard.read").unwrap();
    assert_eq!(store.effective_capability(&m, &other), Effective::Undeclared);
    // Back to Ask clears the override entirely.
    store.set_capability("t", members.id, GrantState::Ask);
    assert_eq!(store.capability_state("t", members.id), GrantState::Ask);
}

#[test]
fn a_narrowed_manifest_declares_only_the_listed_capabilities() {
    let mut m = manifest(&["matrix-room-read"]);
    m.capabilities = vec!["matrix.room.members.read".to_string()];
    m.normalize_permissions();
    assert!(m.declares_capability(&by_id("matrix.room.members.read").unwrap()));
    assert!(!m.declares_capability(&by_id("matrix.room.pins.read").unwrap()));
    assert!(m.declares_capability(&by_id("host.env.read").unwrap()));
    // Listing a capability alone pulls its group in.
    let mut n = manifest(&[]);
    n.capabilities = vec!["device.clipboard.write".to_string()];
    n.normalize_permissions();
    assert!(n.declares(Permission::ClipboardWrite));
}

/// Removing `network` clears the legacy flag that mirrors it, so the
/// declaration stays removed.
#[test]
fn undeclaring_network_clears_the_flag() {
    let mut m = manifest(&["network", "location"]);
    m.allow_net = true;
    m.permission_reasons.insert("network".to_string(), "x".to_string());
    m.undeclare(Permission::Network);
    assert!(!m.declares(Permission::Network));
    assert!(!m.allow_net);
    assert_eq!(m.permissions, vec!["location".to_string()]);
    assert!(m.reason_for(Permission::Network).is_none());
}
