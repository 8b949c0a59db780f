use a2app_core::capabilities::by_id;
use a2app_core::dock::{DockState, OpenStep, PaneSide, PaneState};
use a2app_core::hosts::HostBook;
use a2app_core::manifest::{A2AppScope, MiniAppManifest};
use a2app_core::maps::StrMap;
use a2app_core::permission::Permission;
use a2app_core::registry::AppRegistry;
use a2app_core::screen::{
    app_row_detail, capability_rows_at, capability_state_label, card_detail, card_name, card_wants,
    console_buttons, cycle_capability_answer, cycle_permission_answer, grants_allow_net, info_kind,
    installed_copy, offers_allow_once, permission_rows_at, permission_state_label, prompt_blurb,
    prompt_reason, prompt_title, storage_label, PromptInfo,
};
use a2app_core::store::{Effective, GrantState, PermissionStore};

fn app(id: &str, perms: &[&str]) -> MiniAppManifest {
    MiniAppManifest {
        id: id.into(),
        name: "App".into(),
        icon: "i".into(),
        tint: 0,
        source: format!("source of {id}"),
        allow_net: false,
        permissions: perms.iter().map(|s| s.to_string()).collect(),
        permission_reasons: StrMap::new(),
        capabilities: Vec::new(),
        builtin: false,
        widget: None,
        shortcuts: vec![],
        scope: A2AppScope::Account,
    }
}

#[test]
fn taps_cycle_answers() {
    assert_eq!(cycle_permission_answer(Effective::Granted, Permission::Location), Some(GrantState::Ask));
    assert_eq!(cycle_permission_answer(Effective::Granted, Permission::OpenUrl), Some(GrantState::Denied));
    assert_eq!(cycle_permission_answer(Effective::NeedsPrompt, Permission::Location), Some(GrantState::Denied));
    assert_eq!(cycle_permission_answer(Effective::Denied, Permission::Location), Some(GrantState::Granted));
    assert_eq!(cycle_permission_answer(Effective::Undeclared, Permission::Location), None);
    let mut g = GrantState::Ask;
    for expected in [GrantState::Denied, GrantState::Granted, GrantState::Ask] {
        g = cycle_capability_answer(g);
        assert_eq!(g, expected);
    }
}

#[test]
fn rows_read_as_answers() {
    assert_eq!(permission_state_label(Effective::NeedsPrompt), "Asks");
    assert_eq!(permission_state_label(Effective::Undeclared), "Undeclared");
    assert_eq!(capability_state_label(GrantState::Ask, Effective::Granted), "Allowed · group");
    assert_eq!(capability_state_label(GrantState::Ask, Effective::Undeclared), "Blocked · group");
    assert_eq!(capability_state_label(GrantState::Denied, Effective::Granted), "Blocked");
    assert_eq!(app_row_detail(false, Some("!r"), false, true), "Room: !r · running");
    assert_eq!(app_row_detail(true, Some("!r"), true, true), "Built-in · stopped for abuse");
    assert_eq!(app_row_detail(false, None, false, false), "Account-wide");
    assert_eq!(info_kind(false, Some("!r")), "Your mini-app · scoped to room !r");
    assert_eq!(info_kind(true, None), "Built-in mini-app · available account-wide");
    assert_eq!(storage_label(2048), "Saved data: 2048 bytes in this app's private storage.");
    assert_eq!(console_buttons(true, true), (true, false, false));
    assert_eq!(console_buttons(false, true), (false, true, true));
}

#[test]
fn info_rows_follow_the_declarations() {
    let m = app("t", &["location", "nope", "matrix-room-read", "location"]);
    let mut store = PermissionStore::default();
    store.set("t", Permission::MatrixRoomRead, GrantState::Granted);
    let rows = permission_rows_at(&store, &m, 0);
    assert_eq!(
        rows,
        vec![
            (Permission::Location, Effective::NeedsPrompt),
            (Permission::MatrixRoomRead, Effective::Granted),
            (Permission::Location, Effective::NeedsPrompt),
        ]
    );
    store.set_capability("t", "matrix.room.pins.read", GrantState::Denied);
    let caps = capability_rows_at(&store, &m, Permission::MatrixRoomRead, 0);
    assert!(!caps.is_empty());
    let pins = caps.iter().find(|(c, _, _)| c.id == "matrix.room.pins.read").unwrap();
    assert_eq!((pins.1, pins.2), (GrantState::Denied, Effective::Denied));
    assert!(caps.iter().all(|(c, _, _)| c.group == Some(Permission::MatrixRoomRead) && c.is_available()));
    assert!(capability_rows_at(&store, &m, Permission::Camera, 0).is_empty());
    assert!(by_id("matrix.room.pins.read").is_some());
}

#[test]
fn prompt_texts() {
    let mut info = PromptInfo {
        app_name: "Sunrise".into(),
        app_icon: "🌅".into(),
        perm: Permission::Location,
        reason: Some("Uses your city.".into()),
        capability: None,
    };
    assert_eq!(prompt_title(&info), "🌅 \"Sunrise\" wants to: Location");
    assert_eq!(prompt_blurb(&info), "See your approximate location.");
    assert_eq!(prompt_reason(&info), "The app's stated reason: \"Uses your city.\"");
    info.capability = Some("Read your position".into());
    info.reason = None;
    assert_eq!(prompt_title(&info), "🌅 \"Sunrise\" wants to: Read your position");
    assert_eq!(
        prompt_blurb(&info),
        "See your approximate location. Allowing covers the \"Location\" group; single abilities can be blocked in App Info."
    );
    assert_eq!(prompt_reason(&info), "The app gave no reason for needing this.");
    assert!(offers_allow_once(Permission::Location));
    assert!(!offers_allow_once(Permission::OpenUrl));
}

#[test]
fn shared_app_cards() {
    assert_eq!(card_wants(&vec![]), "no permissions");
    assert_eq!(card_wants(&vec!["network".into(), "location".into()]), "network, location");
    assert_eq!(card_name("Dice"), "Dice — Splash mini-app");
    assert_eq!(
        card_detail("Ann", &vec!["network".into()]),
        "Shared by Ann · wants: network. Installing is not granting; you approve each permission."
    );
    let reg = AppRegistry::new(vec![app("a", &[]), app("b", &[])]);
    assert_eq!(installed_copy(&reg, "source of b"), Some("b".to_string()));
    assert_eq!(installed_copy(&reg, "something else"), None);
    assert!(grants_allow_net(&vec!["location".into(), "network".into()]));
    assert!(!grants_allow_net(&vec!["network.http".into()]));
}

#[test]
fn dock_sides_go_round() {
    let mut s = PaneSide::default();
    assert_eq!(s, PaneSide::Right);
    let mut seen = vec![];
    for _ in 0..4 {
        s = s.next();
        seen.push(s);
    }
    assert_eq!(seen, vec![PaneSide::Bottom, PaneSide::Left, PaneSide::Top, PaneSide::Right]);
    assert!(PaneSide::Left.is_vertical() && !PaneSide::Top.is_vertical());
}

#[test]
fn dock_instances_open_minimize_move_and_quit() {
    let mut d = DockState::new();
    assert_eq!(d.open_step("a", false), OpenStep::Start);
    assert_eq!(d.open_step("a", true), OpenStep::RunningElsewhere);
    d.started("a");
    assert_eq!(d.open_step("a", true), OpenStep::AlreadyShown);
    assert_eq!(d.set_minimized("a", true), Some(PaneSide::Right));
    assert_eq!(d.set_minimized("a", true), None);
    assert_eq!(d.open_step("a", false), OpenStep::Restore);
    assert_eq!(d.cycle_edge("a"), Some((PaneSide::Right, PaneSide::Bottom)));
    assert_eq!(d.get("a"), Some(PaneState { side: PaneSide::Bottom, minimized: true }));
    assert_eq!(d.set_minimized("a", false), Some(PaneSide::Bottom));
    assert_eq!(d.apps(), vec!["a".to_string()]);
    assert_eq!(d.quit("a"), Some(PaneState { side: PaneSide::Bottom, minimized: false }));
    assert_eq!(d.quit("a"), None);
    assert_eq!(d.cycle_edge("a"), None);
}

#[test]
fn hosts_are_reused_and_ipc_never_echoes() {
    let mut b = HostBook::new();
    b.started("a", Some(3));
    b.started("a", Some(9));
    b.started("b", None);
    assert!(b.is_running("a"));
    assert!(!b.delivers_to("a", 3));
    assert!(b.delivers_to("a", 9));
    assert!(b.delivers_to("b", 3));
    assert!(!b.delivers_to("c", 3));
    assert_eq!(b.running_ids(), vec!["a".to_string(), "b".to_string()]);
    assert!(b.stopped("a"));
    assert!(!b.stopped("a"));
    assert!(!b.is_running("a"));
}
