use a2app_core::broker::{
    decimal, dispatch, env_answer, notify_text, permissions_query_answer, respond_denied, route,
    service_permission, url_is_allowed, Action, LocationQueue, MatrixServiceCall, Reply, Route,
    ServiceArgs, ServiceRequest, Verdict,
};
use a2app_core::manifest::{A2AppScope, MiniAppManifest};
use a2app_core::maps::StrMap;
use a2app_core::permission::Permission;
use a2app_core::registry::AppRegistry;
use a2app_core::store::{GrantState, PermissionStore};

fn app(id: &str, perms: &[&str]) -> MiniAppManifest {
    MiniAppManifest {
        id: id.into(),
        name: format!("App {id}"),
        icon: "t".into(),
        tint: 0,
        source: String::new(),
        allow_net: false,
        permissions: perms.iter().map(|s| s.to_string()).collect(),
        permission_reasons: StrMap::new(),
        capabilities: Vec::new(),
        builtin: false,
        widget: None,
        shortcuts: vec![],
        scope: A2AppScope::Account,
    }
}

fn no_args() -> ServiceArgs {
    ServiceArgs {
        to: None,
        perm: None,
        text: None,
        url: None,
        title: None,
        body: None,
        count: None,
        name: None,
        data: None,
        data_json: "null".to_string(),
        reason: None,
        limit: None,
    }
}

fn request(tag: &str, service: &str, may_prompt: bool) -> ServiceRequest {
    ServiceRequest {
        app_tag: tag.to_string(),
        service: service.to_string(),
        heap_key: 7,
        req_id: 9,
        may_prompt,
    }
}

fn answer(action: &Action) -> Result<String, String> {
    match action {
        Action::Answer(r) => r.clone(),
        other => panic!("expected an answer, got {other:?}"),
    }
}

#[test]
fn untagged_and_unknown_requests_are_refused() {
    let reg = AppRegistry::new(vec![app("a", &[])]);
    let store = PermissionStore::default();
    let d = dispatch(&reg, &store, &request("", "env", true), &no_args(), &Verdict::Allow, 0);
    assert_eq!(answer(&d.action), Err("host services are not available here".to_string()));
    let d = dispatch(&reg, &store, &request("zz", "env", true), &no_args(), &Verdict::Allow, 0);
    assert_eq!(answer(&d.action), Err("unknown app".to_string()));
    assert!(d.app_id.is_none());
}

#[test]
fn restricted_apps_are_dropped_unanswered() {
    let reg = AppRegistry::new(vec![app("a", &["location"])]);
    let mut store = PermissionStore::default();
    store.restrict("a", "misbehaved", 1, 1);
    let d = dispatch(&reg, &store, &request("a", "location.get", true), &no_args(), &Verdict::Allow, 0);
    assert!(matches!(d.action, Action::Drop));
    assert!(matches!(route(&reg, &store, "a@!room"), Route::Restricted { .. }));
}

#[test]
fn limiter_verdicts_come_first() {
    let reg = AppRegistry::new(vec![app("a", &["location"])]);
    let store = PermissionStore::default();
    let d = dispatch(&reg, &store, &request("a", "env", true), &no_args(), &Verdict::Refuse("slow down".into()), 0);
    assert_eq!(answer(&d.action), Err("slow down".to_string()));
    let d = dispatch(&reg, &store, &request("a", "env", true), &no_args(), &Verdict::Stop("too many".into()), 0);
    match d.action {
        Action::Stop { message, reason } => {
            assert_eq!(message, "too many");
            assert_eq!(reason, "made far too many requests to the system");
        }
        other => panic!("expected a stop, got {other:?}"),
    }
}

#[test]
fn env_reports_the_app_and_its_room() {
    let reg = AppRegistry::new(vec![app("a", &[])]);
    let store = PermissionStore::default();
    let d = dispatch(&reg, &store, &request("a@!r:x", "env", true), &no_args(), &Verdict::Allow, 0);
    assert_eq!(answer(&d.action), Ok("{\"app_id\":\"a\",\"room_attached\":true}".to_string()));
    assert_eq!(env_answer("q\"x", false), "{\"app_id\":\"q\\\"x\",\"room_attached\":false}");
}

#[test]
fn permission_gate_prompts_denies_and_records_uses() {
    let reg = AppRegistry::new(vec![app("a", &["location", "open-url"])]);
    let mut store = PermissionStore::default();
    // Runtime tier, never answered: a prompt where prompts may show.
    let d = dispatch(&reg, &store, &request("a", "location.get", true), &no_args(), &Verdict::Allow, 0);
    assert!(matches!(d.action, Action::Prompt { perm: Permission::Location }));
    // ...and a denial where they may not.
    let d = dispatch(&reg, &store, &request("a", "location.get", false), &no_args(), &Verdict::Allow, 0);
    assert_eq!(answer(&d.action), Err("permission denied: location".to_string()));
    // Granted: the work happens and the use is recorded.
    store.set("a", Permission::Location, GrantState::Granted);
    let d = dispatch(&reg, &store, &request("a", "location.get", true), &no_args(), &Verdict::Allow, 0);
    assert!(matches!(d.action, Action::Location));
    assert_eq!(d.used, Some(Permission::Location));
    // Undeclared: refused outright.
    let d = dispatch(&reg, &store, &request("a", "clipboard.read", true), &no_args(), &Verdict::Allow, 0);
    assert_eq!(answer(&d.action), Err("permission not declared: clipboard-read".to_string()));
    // Unknown services are refused by name.
    let d = dispatch(&reg, &store, &request("a", "teleport", true), &no_args(), &Verdict::Allow, 0);
    assert_eq!(answer(&d.action), Err("unknown service 'teleport'".to_string()));
}

#[test]
fn links_are_checked_before_opening() {
    let reg = AppRegistry::new(vec![app("a", &["open-url"])]);
    let store = PermissionStore::default();
    let mut args = no_args();
    args.url = Some("file:///etc/passwd".into());
    let d = dispatch(&reg, &store, &request("a", "url.open", true), &args, &Verdict::Allow, 0);
    assert_eq!(answer(&d.action), Err("only http(s) and mailto links can be opened".to_string()));
    args.url = Some("https://example.org".into());
    let d = dispatch(&reg, &store, &request("a", "url.open", true), &args, &Verdict::Allow, 0);
    assert!(matches!(d.action, Action::OpenUrl { ref url } if url == "https://example.org"));
    assert!(url_is_allowed("mailto:someone@example.org"));
    assert!(!url_is_allowed(&format!("https://{}", "x".repeat(2041))));
    assert!(url_is_allowed(&format!("https://{}", "x".repeat(2040))));
    let d = dispatch(&reg, &store, &request("a", "url.open", true), &no_args(), &Verdict::Allow, 0);
    assert_eq!(answer(&d.action), Err("url.open needs {url}".to_string()));
}

#[test]
fn popup_text_is_flattened_and_clamped() {
    assert_eq!(notify_text(Some(" Hi "), Some("there\nyou"), None), "Hi: there you");
    assert_eq!(notify_text(None, None, Some(5000)), "999 notifications");
    assert_eq!(notify_text(None, Some("  "), None), "New notification");
    assert_eq!(notify_text(Some(&"y".repeat(300)), None, None).chars().count(), 200);
    assert_eq!(decimal(0), "0");
    assert_eq!(decimal(1234567), "1234567");
}

#[test]
fn matrix_calls_need_a_room_and_clamp_their_limits() {
    let reg = AppRegistry::new(vec![app("a", &["matrix-room-read", "matrix-room-send", "matrix-profile"])]);
    let mut store = PermissionStore::default();
    store.set("a", Permission::MatrixRoomRead, GrantState::Granted);
    store.set("a", Permission::MatrixRoomSend, GrantState::Granted);
    let d = dispatch(&reg, &store, &request("a", "matrix.read_messages", true), &no_args(), &Verdict::Allow, 0);
    assert_eq!(answer(&d.action), Err("this mini-app is not attached to a room".to_string()));
    let mut args = no_args();
    args.limit = Some(500);
    let d = dispatch(&reg, &store, &request("a@!r", "matrix.read_messages", true), &args, &Verdict::Allow, 0);
    match d.action {
        Action::Matrix { room, call: MatrixServiceCall::ReadMessages { limit } } => {
            assert_eq!(room.as_deref(), Some("!r"));
            assert_eq!(limit, 30);
        }
        other => panic!("unexpected {other:?}"),
    }
    let d = dispatch(&reg, &store, &request("a@!r", "matrix.room_members", true), &no_args(), &Verdict::Allow, 0);
    assert!(matches!(d.action, Action::Matrix { call: MatrixServiceCall::Members { limit: 50 }, .. }));
    let mut args = no_args();
    args.body = Some("   ".into());
    let d = dispatch(&reg, &store, &request("a@!r", "matrix.send_message", true), &args, &Verdict::Allow, 0);
    assert_eq!(answer(&d.action), Err("matrix.send_message needs {body}".to_string()));
    args.body = Some(" hello ".into());
    let d = dispatch(&reg, &store, &request("a@!r", "matrix.send_message", true), &args, &Verdict::Allow, 0);
    assert!(matches!(d.action, Action::Matrix { call: MatrixServiceCall::SendMessage { ref body }, .. } if body == "hello"));
    args.body = Some("z".repeat(4097));
    let d = dispatch(&reg, &store, &request("a@!r", "matrix.send_message", true), &args, &Verdict::Allow, 0);
    assert_eq!(answer(&d.action), Err("message is too long (4096 characters max)".to_string()));
    // The profile needs no room.
    let d = dispatch(&reg, &store, &request("a", "matrix.profile", true), &no_args(), &Verdict::Allow, 0);
    assert!(matches!(d.action, Action::Matrix { call: MatrixServiceCall::Profile, room: None }));
}

#[test]
fn ipc_to_self_is_free_and_other_apps_must_accept() {
    let reg = AppRegistry::new(vec![app("a", &[]), app("b", &["ipc"]), app("c", &[])]);
    let mut store = PermissionStore::default();
    let mut args = no_args();
    args.to = Some("self".into());
    args.data_json = "{\"x\":1}".into();
    let d = dispatch(&reg, &store, &request("a", "ipc.send", true), &args, &Verdict::Allow, 0);
    assert!(matches!(d.action, Action::IpcDeliver { ref to, ref data_json } if to == "a" && data_json == "{\"x\":1}"));
    assert_eq!(d.used, None);
    // Sending to another app needs the sender's own ipc declaration.
    args.to = Some("b".into());
    let d = dispatch(&reg, &store, &request("a", "ipc.send", true), &args, &Verdict::Allow, 0);
    assert_eq!(answer(&d.action), Err("permission not declared: ipc".to_string()));
    let reg = AppRegistry::new(vec![app("a", &["ipc"]), app("b", &["ipc"]), app("c", &[])]);
    store.set("a", Permission::Ipc, GrantState::Granted);
    let d = dispatch(&reg, &store, &request("a", "ipc.send", true), &args, &Verdict::Allow, 0);
    assert!(matches!(d.action, Action::IpcDeliver { ref to, .. } if to == "b"));
    args.to = Some("c".into());
    let d = dispatch(&reg, &store, &request("a", "ipc.send", true), &args, &Verdict::Allow, 0);
    assert_eq!(answer(&d.action), Err("that app doesn't accept messages".to_string()));
    args.to = Some("nobody".into());
    let d = dispatch(&reg, &store, &request("a", "ipc.send", true), &args, &Verdict::Allow, 0);
    assert_eq!(answer(&d.action), Err("no such app".to_string()));
}

#[test]
fn permission_queries_answer_in_key_order() {
    let reg = AppRegistry::new(vec![app("a", &["open-url", "location", "bogus", "location"])]);
    let mut store = PermissionStore::default();
    store.set("a", Permission::Location, GrantState::Denied);
    let m = reg.get("a").unwrap();
    assert_eq!(
        permissions_query_answer(&store, m, 0),
        "{\"location\":\"denied\",\"open-url\":\"granted\"}"
    );
    let mut args = no_args();
    args.perm = Some("open-url".into());
    let d = dispatch(&reg, &store, &request("a", "permissions.request", true), &args, &Verdict::Allow, 0);
    assert_eq!(answer(&d.action), Ok("{\"granted\": true}".to_string()));
    args.perm = Some("camera".into());
    let d = dispatch(&reg, &store, &request("a", "permissions.request", true), &args, &Verdict::Allow, 0);
    assert_eq!(answer(&d.action), Err("permission not declared: camera".to_string()));
    args.perm = Some("warp".into());
    let d = dispatch(&reg, &store, &request("a", "permissions.request", true), &args, &Verdict::Allow, 0);
    assert_eq!(answer(&d.action), Err("unknown permission".to_string()));
}

#[test]
fn denied_answers_name_the_group() {
    assert_eq!(respond_denied("permissions.request"), Ok("{\"granted\": false}".to_string()));
    assert_eq!(respond_denied("share"), Err("permission denied: share".to_string()));
    assert_eq!(respond_denied("whatever"), Err("permission denied".to_string()));
    assert_eq!(service_permission("matrix.pinned_events"), Some(Permission::MatrixRoomRead));
    assert_eq!(service_permission("env"), None);
}

#[test]
fn one_location_fix_serves_every_waiter() {
    let mut q = LocationQueue::new();
    assert!(q.push(Reply { heap_key: 1, req_id: 1 }));
    assert!(!q.push(Reply { heap_key: 2, req_id: 5 }));
    let all = q.take_all();
    assert_eq!(all, vec![Reply { heap_key: 1, req_id: 1 }, Reply { heap_key: 2, req_id: 5 }]);
    assert!(q.is_empty());
}

#[test]
fn files_save_needs_a_name_and_data() {
    let reg = AppRegistry::new(vec![app("a", &["files", "auth"])]);
    let store = PermissionStore::default();
    let mut args = no_args();
    args.name = Some(String::new());
    args.data = Some("x".into());
    let d = dispatch(&reg, &store, &request("a", "files.save", true), &args, &Verdict::Allow, 0);
    assert_eq!(answer(&d.action), Err("files.save needs {name, data}".to_string()));
    args.name = Some("n.txt".into());
    let d = dispatch(&reg, &store, &request("a", "files.save", true), &args, &Verdict::Allow, 0);
    assert!(matches!(d.action, Action::FilesSave { ref name, ref data } if name == "n.txt" && data == "x"));
    let d = dispatch(&reg, &store, &request("a", "auth.check", true), &args, &Verdict::Allow, 0);
    assert!(matches!(d.action, Action::AuthCheck { ref app_name, ref reason } if app_name == "App a" && reason == "Confirm it's you"));
}

#[test]
fn every_service_gets_its_action_or_error() {
    let reg = AppRegistry::new(vec![app(
        "a",
        &["clipboard-read", "clipboard-write", "share", "notifications", "files", "matrix-room-info"],
    )]);
    let mut store = PermissionStore::default();
    for p in [Permission::ClipboardRead, Permission::Notifications, Permission::MatrixRoomInfo] {
        store.set("a", p, GrantState::Granted);
    }
    let run = |svc: &str, args: &ServiceArgs| {
        dispatch(&reg, &store, &request("a@!r", svc, true), args, &Verdict::Allow, 0)
    };
    assert_eq!(answer(&run("clipboard.write", &no_args()).action), Err("clipboard.write needs {text}".to_string()));
    assert_eq!(answer(&run("share", &no_args()).action), Err("share needs {text}".to_string()));
    assert!(matches!(run("clipboard.read", &no_args()).action, Action::ClipboardRead));
    assert!(matches!(run("files.pick", &no_args()).action, Action::FilesPick));
    assert_eq!(answer(&run("notify.clear", &no_args()).action), Ok("{}".to_string()));
    let mut args = no_args();
    args.title = Some("Done".into());
    assert!(matches!(run("notify.post", &args).action, Action::Notify { ref summary } if summary == "Done"));
    args.text = Some("hi".into());
    assert!(matches!(run("clipboard.write", &args).action, Action::ClipboardWrite { ref text } if text == "hi"));
    assert!(matches!(run("share", &args).action, Action::Share { ref text } if text == "hi"));
    assert!(matches!(run("matrix.room_info", &args).action, Action::Matrix { call: MatrixServiceCall::RoomInfo, .. }));
    let d = dispatch(&reg, &store, &request("a", "env", false), &no_args(), &Verdict::Allow, 0);
    assert_eq!(answer(&d.action), Ok("{\"app_id\":\"a\",\"room_attached\":false}".to_string()));
    assert_eq!(d.app_id.as_deref(), Some("a"));
}

/// An app id is written as a JSON string: quotes and backslashes escaped,
/// control characters short or as `\u00XX`.
#[test]
fn env_escapes_the_app_id() {
    assert_eq!(
        env_answer("a\\b\n\t\u{1}\u{1f}é", true),
        "{\"app_id\":\"a\\\\b\\n\\t\\u0001\\u001fé\",\"room_attached\":true}"
    );
}

/// The query answer lists the declared groups in key order, whatever order
/// the manifest declares them in.
#[test]
fn query_answer_is_in_key_order() {
    let reg = AppRegistry::new(vec![app("b", &["open-url", "camera", "location"])]);
    let mut store = PermissionStore::default();
    store.set("b", Permission::Camera, GrantState::Granted);
    let m = reg.get("b").unwrap();
    let text = permissions_query_answer(&store, m, 0);
    let camera = text.find("\"camera\"").unwrap();
    let location = text.find("\"location\"").unwrap();
    let open_url = text.find("\"open-url\"").unwrap();
    assert!(text.starts_with('{') && text.ends_with('}'));
    assert!(camera < location && location < open_url);
    assert!(text.contains("\"camera\":\"granted\""));
}
