use a2app_core::manifest::{A2AppScope, MiniAppManifest};
use a2app_core::maps::StrMap;
use a2app_core::registry::{instance_tag, split_instance_tag, AppRegistry};

fn app(id: &str, name: &str) -> MiniAppManifest {
    MiniAppManifest {
        id: id.into(),
        name: name.into(),
        icon: "i".into(),
        tint: 0,
        source: String::new(),
        allow_net: false,
        permissions: vec![],
        permission_reasons: StrMap::new(),
        capabilities: Vec::new(),
        builtin: false,
        widget: None,
        shortcuts: vec![],
        scope: A2AppScope::Account,
    }
}

#[test]
fn registry_replaces_in_place_and_removes() {
    let mut reg = AppRegistry::new(vec![app("a", "A"), app("b", "B"), app("a", "A2")]);
    assert_eq!(reg.len(), 2);
    assert_eq!(reg.iter()[0].name, "A2");
    reg.insert(app("c", "C"));
    assert_eq!(reg.iter().iter().map(|m| m.id.as_str()).collect::<Vec<_>>(), vec!["a", "b", "c"]);
    assert_eq!(reg.remove("b").unwrap().name, "B");
    assert!(reg.remove("b").is_none());
    assert!(!reg.contains("b") && reg.contains("c"));
    reg.get_mut("c").unwrap().name = "C2".into();
    assert_eq!(reg.get("c").unwrap().name, "C2");
    assert!(!reg.is_empty());
}

#[test]
fn instance_tags_round_trip() {
    assert_eq!(instance_tag("app", Some("!room:x")), "app@!room:x");
    assert_eq!(instance_tag("app", None), "app");
    assert_eq!(split_instance_tag("app@!room:x"), ("app", Some("!room:x")));
    assert_eq!(split_instance_tag("app"), ("app", None));
}
