//! The manifests of the pre-installed mini-apps: what each one declares and
//! why, and the manifests built from their scripts.

use vstd::prelude::*;

use crate::manifest::{
    is_perm_id, lemma_dedup_filter_identity, normalized, text_values, A2AppScope, ManifestView, MiniAppManifest,
};
use crate::permission::{perm_id, Permission};
use crate::maps::StrMap;
use crate::text::{owned, str_eq, texts};

verus! {

/// What each stock app declares. Declaring is not granting: runtime-tier
/// entries still prompt on first use. Apps absent here are fully sandboxed.
pub open spec fn builtin_permissions(id: Seq<char>) -> Seq<Seq<char>> {
    if id == "room-peek"@ {
        seq!["matrix-room-info"@, "matrix-room-read"@, "matrix-room-send"@]
    } else if id == "roll-call"@ {
        seq!["matrix-profile"@, "matrix-room-send"@]
    } else if id == "room-info"@ {
        seq!["matrix-room-info"@]
    } else if id == "room-members"@ || id == "room-pins"@ || id == "room-threads"@ {
        seq!["matrix-room-read"@]
    } else {
        Seq::empty()
    }
}

/// Why each stock app wants what it declares, in the app's own voice.
pub open spec fn builtin_reasons(id: Seq<char>) -> Map<Seq<char>, Seq<char>> {
    if id == "room-peek"@ {
        map![
            "matrix-room-info"@ => "Shows this room's name and member count."@,
            "matrix-room-read"@ => "Lists the latest messages in this room."@,
            "matrix-room-send"@ => "Sends the message you type into this room."@,
        ]
    } else if id == "roll-call"@ {
        map![
            "matrix-profile"@ => "Shows who is rolling."@,
            "matrix-room-send"@ => "Posts your roll into this room."@,
        ]
    } else if id == "room-info"@ {
        map!["matrix-room-info"@ => "Shows this room's name, topic, and settings."@]
    } else if id == "room-members"@ {
        map!["matrix-room-read"@ => "Lists who is in this room."@]
    } else if id == "room-pins"@ {
        map!["matrix-room-read"@ => "Shows this room's pinned messages."@]
    } else if id == "room-threads"@ {
        map!["matrix-room-read"@ => "Lists the discussion threads in this room."@]
    } else {
        Map::empty()
    }
}

/// The strings of a list of literals.
fn strings_of(v: &[&'static str]) -> (r: Vec<String>)
    ensures
        texts(r@) == v@.map_values(|s: &'static str| s@),
{
    let mut r: Vec<String> = Vec::new();
    let mut i: usize = 0;
    while i < v.len()
        invariant
            i <= v@.len(),
            texts(r@) == v@.map_values(|s: &'static str| s@).take(i as int),
        decreases v@.len() - i,
    {
        let ghost old_r = r@;
        r.push(owned(v[i]));
        assert(texts(r@) =~= texts(old_r).push(v@[i as int]@));
        i = i + 1;
        assert(texts(r@) =~= v@.map_values(|s: &'static str| s@).take(i as int));
    }
    assert(v@.map_values(|s: &'static str| s@).take(v@.len() as int) =~= v@.map_values(|s: &'static str| s@));
    r
}

/// What a built-in app declares.
fn permissions_for(id: &str) -> (r: Vec<String>)
    ensures
        texts(r@) == builtin_permissions(id@),
{
    let p: &[&'static str] = if str_eq(id, "room-peek") {
        &["matrix-room-info", "matrix-room-read", "matrix-room-send"]
    } else if str_eq(id, "roll-call") {
        &["matrix-profile", "matrix-room-send"]
    } else if str_eq(id, "room-info") {
        &["matrix-room-info"]
    } else if str_eq(id, "room-members") || str_eq(id, "room-pins") || str_eq(id, "room-threads") {
        &["matrix-room-read"]
    } else {
        &[]
    };
    let r = strings_of(p);
    assert(texts(r@) =~= builtin_permissions(id@));
    r
}

/// The map a run of (id, reason) pairs gives, later pairs winning.
pub open spec fn pairs_map(v: Seq<(Seq<char>, Seq<char>)>) -> Map<Seq<char>, Seq<char>>
    decreases v.len(),
{
    if v.len() == 0 {
        Map::empty()
    } else {
        pairs_map(v.drop_last()).insert(v.last().0, v.last().1)
    }
}

/// The texts of a run of (id, reason) literals.
pub open spec fn pair_views(v: Seq<(&'static str, &'static str)>) -> Seq<(Seq<char>, Seq<char>)> {
    v.map_values(|p: (&'static str, &'static str)| (p.0@, p.1@))
}

/// The reasons of a list of (id, reason) literals.
fn reasons_of(v: &[(&'static str, &'static str)]) -> (r: StrMap<String>)
    ensures
        text_values(r.view()) == pairs_map(pair_views(v@)),
{
    let mut r: StrMap<String> = StrMap::new();
    let mut i: usize = 0;
    assert(pair_views(v@).take(0) =~= Seq::<(Seq<char>, Seq<char>)>::empty());
    assert(text_values(r.view()) =~= Map::<Seq<char>, Seq<char>>::empty());
    while i < v.len()
        invariant
            i <= v@.len(),
            text_values(r.view()) == pairs_map(pair_views(v@).take(i as int)),
        decreases v@.len() - i,
    {
        let (k, x) = v[i];
        let ghost before = text_values(r.view());
        r.insert(owned(k), owned(x));
        assert(pair_views(v@).take(i + 1).drop_last() =~= pair_views(v@).take(i as int));
        assert(text_values(r.view()) =~= before.insert(k@, x@));
        i = i + 1;
    }
    assert(pair_views(v@).take(v@.len() as int) =~= pair_views(v@));
    r
}

/// Why a built-in app wants what it declares.
fn reasons_for(id: &str) -> (r: StrMap<String>)
    ensures
        text_values(r.view()) == builtin_reasons(id@),
{
    let pairs: &[(&'static str, &'static str)] = if str_eq(id, "room-peek") {
        &[
            ("matrix-room-info", "Shows this room's name and member count."),
            ("matrix-room-read", "Lists the latest messages in this room."),
            ("matrix-room-send", "Sends the message you type into this room."),
        ]
    } else if str_eq(id, "roll-call") {
        &[("matrix-profile", "Shows who is rolling."), ("matrix-room-send", "Posts your roll into this room.")]
    } else if str_eq(id, "room-info") {
        &[("matrix-room-info", "Shows this room's name, topic, and settings.")]
    } else if str_eq(id, "room-members") {
        &[("matrix-room-read", "Lists who is in this room.")]
    } else if str_eq(id, "room-pins") {
        &[("matrix-room-read", "Shows this room's pinned messages.")]
    } else if str_eq(id, "room-threads") {
        &[("matrix-room-read", "Lists the discussion threads in this room.")]
    } else {
        &[]
    };
    let r = reasons_of(pairs);
    assert(text_values(r.view()) =~= builtin_reasons(id@)) by {
        reveal_with_fuel(pairs_map, 4);
    }
    r
}

/// What a built-in declares, for anyone holding a saved copy of one: a copy
/// saved before a declaration existed is given it back by the loader.
pub fn declared_permissions(id: &str) -> (r: Vec<String>)
    ensures
        texts(r@) == builtin_permissions(id@),
{
    permissions_for(id)
}

/// The stock reasons for a built-in's declarations, same purpose.
pub fn declared_reasons(id: &str) -> (r: StrMap<String>)
    ensures
        text_values(r.view()) == builtin_reasons(id@),
        text_values(r.view()).dom() == builtin_permissions(id@).to_set(),
        forall|k: Seq<char>| #[trigger] text_values(r.view()).contains_key(k) ==> text_values(r.view())[k].len() > 0,
{
    proof {
        law_builtin_reasons_match_declarations(id@);
    }
    reasons_for(id)
}

/// The manifest of a built-in before normalization.
pub open spec fn builtin_manifest(
    id: Seq<char>,
    name: Seq<char>,
    icon: Seq<char>,
    tint: u32,
    source: Seq<char>,
) -> ManifestView {
    ManifestView {
        id,
        name,
        icon,
        tint,
        source,
        allow_net: false,
        permissions: builtin_permissions(id),
        permission_reasons: builtin_reasons(id),
        capabilities: Seq::empty(),
        builtin: true,
        widget: None,
        shortcuts: Seq::empty(),
        scope: None,
    }
}

/// A built-in app's manifest, normalized.
pub fn app(id: &str, name: &str, icon: &str, tint: u32, source: String) -> (m: MiniAppManifest)
    ensures
        m@ == normalized(builtin_manifest(id@, name@, icon@, tint, source@)),
{
    let mut manifest = MiniAppManifest {
        id: owned(id),
        name: owned(name),
        icon: owned(icon),
        tint,
        source,
        allow_net: false,
        permissions: permissions_for(id),
        permission_reasons: reasons_for(id),
        capabilities: Vec::new(),
        builtin: true,
        widget: None,
        shortcuts: Vec::new(),
        scope: A2AppScope::Account,
    };
    assert(texts(manifest.capabilities@) =~= Seq::<Seq<char>>::empty());
    assert(texts(manifest.shortcuts@) =~= Seq::<Seq<char>>::empty());
    assert(manifest@ == builtin_manifest(id@, name@, icon@, tint, manifest.source@));
    manifest.normalize_permissions();
    manifest
}

/// A built-in gives a reason for each of its declarations and for nothing
/// else, and none of its reasons is empty.
pub proof fn law_builtin_reasons_match_declarations(id: Seq<char>)
    ensures
        builtin_reasons(id).dom() == builtin_permissions(id).to_set(),
        forall|k: Seq<char>| #[trigger] builtin_reasons(id).contains_key(k) ==> builtin_reasons(id)[k].len() > 0,
{
    reveal_strlit("Shows this room's name and member count.");
    reveal_strlit("Lists the latest messages in this room.");
    reveal_strlit("Sends the message you type into this room.");
    reveal_strlit("Shows who is rolling.");
    reveal_strlit("Posts your roll into this room.");
    reveal_strlit("Shows this room's name, topic, and settings.");
    reveal_strlit("Lists who is in this room.");
    reveal_strlit("Shows this room's pinned messages.");
    reveal_strlit("Lists the discussion threads in this room.");
    let r = builtin_reasons(id);
    let p = builtin_permissions(id);
    assert forall|k: Seq<char>| r.dom().contains(k) <==> p.to_set().contains(k) by {
        if p.contains(k) {
            let i = choose|i: int| 0 <= i < p.len() && p[i] == k;
            assert(r.dom().contains(p[i]));
        }
        if r.dom().contains(k) {
            if id == "room-peek"@ {
                assert(p[0] == "matrix-room-info"@ && p[1] == "matrix-room-read"@ && p[2] == "matrix-room-send"@);
            } else if id == "roll-call"@ {
                assert(p[0] == "matrix-profile"@ && p[1] == "matrix-room-send"@);
            } else {
                assert(p[0] == p[0]);
            }
        }
    }
    assert(r.dom() =~= p.to_set());
}

/// The built-ins' declarations name known groups, each once, and none of
/// them is `network`.
proof fn lemma_builtin_permissions_clean(id: Seq<char>)
    ensures
        builtin_permissions(id).no_duplicates(),
        forall|i: int| 0 <= i < builtin_permissions(id).len() ==> is_perm_id(#[trigger] builtin_permissions(id)[i]),
        !builtin_permissions(id).contains(perm_id(Permission::Network)),
{
    reveal_strlit("matrix-room-info");
    reveal_strlit("matrix-room-read");
    reveal_strlit("matrix-room-send");
    reveal_strlit("matrix-profile");
    reveal_strlit("network");
    assert(perm_id(Permission::MatrixRoomInfo) == "matrix-room-info"@);
    assert(perm_id(Permission::MatrixRoomRead) == "matrix-room-read"@);
    assert(perm_id(Permission::MatrixRoomSend) == "matrix-room-send"@);
    assert(perm_id(Permission::MatrixProfile) == "matrix-profile"@);
    assert(perm_id(Permission::Network) == "network"@);
    assert("matrix-room-info"@[12] != "matrix-room-read"@[12]);
    assert("matrix-room-info"@[12] != "matrix-room-send"@[12]);
    assert("matrix-room-read"@[12] != "matrix-room-send"@[12]);
    assert("matrix-profile"@[7] != "matrix-room-send"@[7]);
    assert("network"@[0] != "matrix-room-info"@[0]);
    assert("network"@[0] != "matrix-room-read"@[0]);
    assert("network"@[0] != "matrix-room-send"@[0]);
    assert("network"@[0] != "matrix-profile"@[0]);
    let p = builtin_permissions(id);
    assert forall|i: int| 0 <= i < p.len() implies is_perm_id(#[trigger] p[i]) by {
        if p[i] == "matrix-room-info"@ {
            assert(perm_id(Permission::MatrixRoomInfo) == p[i]);
        } else if p[i] == "matrix-room-read"@ {
            assert(perm_id(Permission::MatrixRoomRead) == p[i]);
        } else if p[i] == "matrix-room-send"@ {
            assert(perm_id(Permission::MatrixRoomSend) == p[i]);
        } else {
            assert(perm_id(Permission::MatrixProfile) == p[i]);
        }
    }
}

/// A built-in's manifest keeps exactly its stock declarations and reasons
/// through normalization, and never carries the legacy network flag.
pub proof fn law_builtin_manifest_keeps_its_tables(
    id: Seq<char>,
    name: Seq<char>,
    icon: Seq<char>,
    tint: u32,
    source: Seq<char>,
)
    ensures
        normalized(builtin_manifest(id, name, icon, tint, source)).permissions == builtin_permissions(id),
        normalized(builtin_manifest(id, name, icon, tint, source)).permission_reasons == builtin_reasons(id),
        !normalized(builtin_manifest(id, name, icon, tint, source)).allow_net,
{
    let m = builtin_manifest(id, name, icon, tint, source);
    lemma_builtin_permissions_clean(id);
    law_builtin_reasons_match_declarations(id);
    lemma_dedup_filter_identity(builtin_permissions(id), |s: Seq<char>| is_perm_id(s));
    assert(normalized(m).permissions == builtin_permissions(id));
    assert(builtin_reasons(id).restrict(builtin_permissions(id).to_set()) =~= builtin_reasons(id));
}

/// How many apps are pre-installed.
pub const BUILTIN_COUNT: usize = 6;

/// The id, name, icon, tint and script file of the built-in at `i`.
pub open spec fn builtin_entry(i: int) -> (Seq<char>, Seq<char>, Seq<char>, u32, Seq<char>) {
    if i == 0 {
        ("room-peek"@, "Room Peek"@, "👀"@, 0x4A90D9u32, "room_peek.splash"@)
    } else if i == 1 {
        ("roll-call"@, "Roll Call"@, "🎲"@, 0x7C6CF0u32, "roll_call.splash"@)
    } else if i == 2 {
        ("room-info"@, "Room Info"@, "🏷"@, 0x2E86ABu32, "room_info.splash"@)
    } else if i == 3 {
        ("room-members"@, "Room Members"@, "👥"@, 0x6C8E3Au32, "room_members.splash"@)
    } else if i == 4 {
        ("room-pins"@, "Pinned Events"@, "📌"@, 0xC0533Eu32, "room_pins.splash"@)
    } else {
        ("room-threads"@, "Room Threads"@, "🧵"@, 0x8A5CA8u32, "room_threads.splash"@)
    }
}

fn builtin_row(i: usize) -> (r: (&'static str, &'static str, &'static str, u32, &'static str))
    requires
        i < BUILTIN_COUNT,
    ensures
        (r.0@, r.1@, r.2@, r.3, r.4@) == builtin_entry(i as int),
{
    match i {
        0 => ("room-peek", "Room Peek", "👀", 0x4A90D9, "room_peek.splash"),
        1 => ("roll-call", "Roll Call", "🎲", 0x7C6CF0, "roll_call.splash"),
        2 => ("room-info", "Room Info", "🏷", 0x2E86AB, "room_info.splash"),
        3 => ("room-members", "Room Members", "👥", 0x6C8E3A, "room_members.splash"),
        4 => ("room-pins", "Pinned Events", "📌", 0xC0533E, "room_pins.splash"),
        _ => ("room-threads", "Room Threads", "🧵", 0x8A5CA8, "room_threads.splash"),
    }
}

/// The script file the built-in at `i` is read from.
pub fn builtin_file(i: usize) -> (f: &'static str)
    requires
        i < BUILTIN_COUNT,
    ensures
        f@ == builtin_entry(i as int).4,
{
    builtin_row(i).4
}

/// The pre-installed apps, each built from its script (`sources[i]` is the
/// contents of [`builtin_file`]`(i)`): always present, never uninstallable.
pub fn builtin_apps_from(sources: Vec<String>) -> (r: Vec<MiniAppManifest>)
    requires
        sources@.len() == BUILTIN_COUNT,
    ensures
        r@.len() == BUILTIN_COUNT,
        forall|i: int|
            0 <= i < BUILTIN_COUNT ==> {
                let e = builtin_entry(i);
                (#[trigger] r@[i])@ == normalized(builtin_manifest(e.0, e.1, e.2, e.3, sources@[i]@))
            },
        forall|i: int|
            0 <= i < BUILTIN_COUNT ==> {
                let m = (#[trigger] r@[i])@;
                &&& m.permissions == builtin_permissions(m.id)
                &&& m.permission_reasons == builtin_reasons(m.id)
                &&& !m.allow_net
            },
{
    let mut out: Vec<MiniAppManifest> = Vec::new();
    let mut i: usize = 0;
    while i < BUILTIN_COUNT
        invariant
            i <= BUILTIN_COUNT,
            sources@.len() == BUILTIN_COUNT,
            out@.len() == i,
            forall|j: int|
                0 <= j < i ==> {
                    let e = builtin_entry(j);
                    (#[trigger] out@[j])@ == normalized(builtin_manifest(e.0, e.1, e.2, e.3, sources@[j]@))
                },
        decreases BUILTIN_COUNT - i,
    {
        let row = builtin_row(i);
        let m = app(row.0, row.1, row.2, row.3, sources[i].clone());
        out.push(m);
        i = i + 1;
    }
    proof {
        assert forall|i: int| 0 <= i < BUILTIN_COUNT implies {
            let m = (#[trigger] out@[i])@;
            &&& m.permissions == builtin_permissions(m.id)
            &&& m.permission_reasons == builtin_reasons(m.id)
            &&& !m.allow_net
        } by {
            let e = builtin_entry(i);
            law_builtin_manifest_keeps_its_tables(e.0, e.1, e.2, e.3, sources@[i]@);
        }
    }
    out
}

} // verus!
