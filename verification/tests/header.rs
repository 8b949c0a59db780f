use a2app_core::header::{parse_app_header, parse_hex_color};

/// A generated app declares its capabilities in the header, or it can
/// never be granted them: an undeclared capability is refused outright.
#[test]
fn header_carries_permissions_and_reasons() {
    let src = "// name: Sunrise\n\
               // icon: 🌅\n\
               // permissions: network, location, made-up-cap, network\n\
               // why-location: Uses your city.\n\
               // why-made-up-cap: ignored\n\
               View{}";
    let h = parse_app_header(src);
    // Unknown ids and repeats are dropped.
    assert_eq!(h.permissions, vec!["network".to_string(), "location".to_string()]);
    assert_eq!(h.permission_reasons.get("location").unwrap(), "Uses your city.");
    assert!(!h.permission_reasons.contains_key("made-up-cap"));
}

/// No header line means no capabilities, the safe default for every app
/// that never asks for anything.
#[test]
fn header_without_permissions_declares_nothing() {
    let h = parse_app_header("// name: Tip\nView{}");
    assert!(h.permissions.is_empty());
    assert!(h.permission_reasons.is_empty());
}

#[test]
fn parses_name_icon_and_tint() {
    let h = parse_app_header("// name: Tip Calc\n// icon: 💰\n// tint: #4A90D9\nView{}");
    assert_eq!(h.name.as_deref(), Some("Tip Calc"));
    assert_eq!(h.icon.as_deref(), Some("💰"));
    assert_eq!(h.tint, Some(0x4A90D9));
}

#[test]
fn header_variants_parse() {
    assert_eq!(parse_hex_color("#aabbcc"), Some(0xaabbcc));
    assert_eq!(parse_hex_color("0xAABBCC"), Some(0xAABBCC));
    assert_eq!(parse_hex_color("nope"), None);
}

#[test]
fn icon_header_keeps_multi_codepoint_emoji() {
    let h = parse_app_header("// icon: 👨\u{200d}👩\u{200d}👧\nView{}");
    assert_eq!(h.icon.as_deref(), Some("👨\u{200d}👩\u{200d}👧"));
}

#[test]
fn header_lines_after_the_twentieth_are_ignored() {
    let mut src = String::new();
    for _ in 0..20 {
        src.push_str("// filler\n");
    }
    src.push_str("// name: Late\n");
    assert_eq!(parse_app_header(&src).name, None);
    let h = parse_app_header("\r\n  // name:   A very long application name indeed  \r\n// tint: 0x0x00ff00\nx");
    assert_eq!(h.name.as_deref(), Some("A very long applic"));
    assert_eq!(h.tint, Some(0x00ff00));
}

#[test]
fn header_capabilities_declare_their_group() {
    let h = parse_app_header("// permissions: matrix.room.members.read , device.clipboard.write, bogus.cap\n// why-clipboard-write:   \n// why-network: Fetches data");
    assert_eq!(h.permissions, vec!["matrix-room-read".to_string(), "clipboard-write".to_string()]);
    assert_eq!(
        h.capabilities,
        vec!["matrix.room.members.read".to_string(), "device.clipboard.write".to_string()]
    );
    assert!(h.permission_reasons.is_empty() == false);
    assert!(!h.permission_reasons.contains_key("clipboard-write"));
    assert_eq!(h.permission_reasons.get("network").unwrap(), "Fetches data");
}

#[test]
fn hex_colors_take_a_plus_and_reject_bad_lengths() {
    assert_eq!(parse_hex_color("##xx+00ff0"), Some(0x00ff0));
    assert_eq!(parse_hex_color("#abc"), None);
    assert_eq!(parse_hex_color("#gg0000"), None);
    assert_eq!(parse_hex_color("#ÄÄÄÄÄÄ"), None);
}
