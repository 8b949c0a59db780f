use a2app_core::broker::{service_args, Action, Decision, StoppedApps};

#[test]
fn string_members_are_read() {
    let a = service_args(r#"{"to":"notes","text":"hi \"you\"","perm":"camera"}"#);
    assert_eq!(a.to.as_deref(), Some("notes"));
    assert_eq!(a.text.as_deref(), Some("hi \"you\""));
    assert_eq!(a.perm.as_deref(), Some("camera"));
    assert_eq!(a.url, None);
}

#[test]
fn number_members_are_read_only_when_whole_and_unsigned() {
    let a = service_args(r#"{"limit":25,"count":-3}"#);
    assert_eq!(a.limit, Some(25));
    assert_eq!(a.count, None);
    let b = service_args(r#"{"limit":2.5,"count":"7"}"#);
    assert_eq!(b.limit, None);
    assert_eq!(b.count, None);
}

#[test]
fn data_is_kept_as_json_text() {
    let a = service_args(r#"{"data": {"b": 1, "a": [true, null]}}"#);
    assert_eq!(a.data_json, r#"{"a":[true,null],"b":1}"#);
    assert_eq!(a.data, None);
    let b = service_args(r#"{"data":"plain"}"#);
    assert_eq!(b.data.as_deref(), Some("plain"));
    assert_eq!(b.data_json, r#""plain""#);
}

#[test]
fn text_that_is_no_json_reads_as_nothing() {
    let a = service_args("not json");
    assert_eq!(a.text, None);
    assert_eq!(a.limit, None);
    assert_eq!(a.data_json, "null");
    let b = service_args("");
    assert_eq!(b.data_json, "null");
}

#[test]
fn a_stopped_app_loses_the_rest_of_its_batch() {
    let mut stopped = StoppedApps::new();
    assert!(!stopped.skips("notes@!room"));
    let answer = Decision { app_id: Some("notes".into()), used: None, action: Action::Drop };
    stopped.note(&answer);
    assert!(!stopped.skips("notes"));
    let stop = Decision {
        app_id: Some("notes".into()),
        used: None,
        action: Action::Stop { message: "slow down".into(), reason: "too many".into() },
    };
    stopped.note(&stop);
    assert!(stopped.skips("notes"));
    assert!(stopped.skips("notes@!room:example.org"));
    assert!(!stopped.skips("weather"));
}
