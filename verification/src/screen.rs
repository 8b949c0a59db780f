//! What the mini-app screens show and what their buttons change: the
//! permission and capability rows of an app, the answer each tap moves to,
//! the labels of the rows, and the texts of the permission prompt and of a
//! shared app's card. Drawing them is the host's part.

use vstd::prelude::*;

use crate::broker::{concat, decimal, decimal_text};
use crate::capabilities::{catalog, gated_by, in_group, status_available, views, Capability, CapabilityView};
use crate::manifest::{declares_capability, is_perm_id, ManifestView, MiniAppManifest};
use crate::permission::{perm_blurb, perm_id, perm_tier, perm_title, Permission, Tier};
use crate::store::{
    capability_state_of, effective_at, effective_capability_at, Effective, GrantState, PermissionStore,
    StoreView,
};
use crate::registry::AppRegistry;
use crate::text::{owned, push_text, texts};

verus! {

/// The answer a tap on a group's row moves to: allowed goes to asking
/// (runtime tier) or blocked (normal tier, which has no asking state);
/// asking goes to blocked; blocked goes to allowed. An undeclared group has
/// no answer to change.
pub open spec fn next_answer(e: Effective, t: Tier) -> Option<GrantState> {
    match e {
        Effective::Granted => Some(
            if t == Tier::Runtime {
                GrantState::Ask
            } else {
                GrantState::Denied
            },
        ),
        Effective::NeedsPrompt => Some(GrantState::Denied),
        Effective::Denied => Some(GrantState::Granted),
        Effective::Undeclared => None,
    }
}

/// The answer a tap on a group's row stores.
pub fn cycle_permission_answer(effective: Effective, perm: Permission) -> (r: Option<GrantState>)
    ensures
        r == next_answer(effective, perm_tier(perm)),
{
    match effective {
        Effective::Granted => match perm.tier() {
            Tier::Runtime => Some(GrantState::Ask),
            Tier::Normal => Some(GrantState::Denied),
        },
        Effective::NeedsPrompt => Some(GrantState::Denied),
        Effective::Denied => Some(GrantState::Granted),
        Effective::Undeclared => None,
    }
}

/// A capability's own answer after a tap: follows the group, then blocked,
/// then allowed, then follows the group again.
pub open spec fn next_capability_answer(g: GrantState) -> GrantState {
    match g {
        GrantState::Ask => GrantState::Denied,
        GrantState::Denied => GrantState::Granted,
        GrantState::Granted => GrantState::Ask,
    }
}

/// The answer a tap on a capability's row stores.
pub fn cycle_capability_answer(current: GrantState) -> (r: GrantState)
    ensures
        r == next_capability_answer(current),
{
    match current {
        GrantState::Ask => GrantState::Denied,
        GrantState::Denied => GrantState::Granted,
        GrantState::Granted => GrantState::Ask,
    }
}

/// Three taps on a capability's row bring its answer back.
pub proof fn law_three_taps_go_round(g: GrantState)
    ensures
        next_capability_answer(next_capability_answer(next_capability_answer(g))) == g,
        next_capability_answer(g) != g,
{
}

/// A tap on a declared group's row always changes what it nets out to
/// for an app that is not restricted and has no one-time or timed grant.
pub proof fn law_a_tap_changes_the_answer(e: Effective, t: Tier)
    requires
        e != Effective::Undeclared,
    ensures
        next_answer(e, t) is Some,
        e == Effective::Denied ==> next_answer(e, t) == Some(GrantState::Granted),
        e != Effective::Denied ==> next_answer(e, t) != Some(GrantState::Granted),
{
}

/// How a group's row reads.
pub open spec fn permission_label(e: Effective) -> Seq<char> {
    match e {
        Effective::Granted => "Allowed"@,
        Effective::NeedsPrompt => "Asks"@,
        Effective::Denied => "Blocked"@,
        Effective::Undeclared => "Undeclared"@,
    }
}

pub fn permission_state_label(e: Effective) -> (r: &'static str)
    ensures
        r@ == permission_label(e),
{
    match e {
        Effective::Granted => "Allowed",
        Effective::NeedsPrompt => "Asks",
        Effective::Denied => "Blocked",
        Effective::Undeclared => "Undeclared",
    }
}

/// How a capability's row reads: its own answer when it has one, otherwise
/// what it inherits from the group.
pub open spec fn capability_label(own: GrantState, e: Effective) -> Seq<char> {
    match own {
        GrantState::Granted => "Allowed"@,
        GrantState::Denied => "Blocked"@,
        GrantState::Ask => match e {
            Effective::Granted => "Allowed · group"@,
            Effective::NeedsPrompt => "Asks · group"@,
            _ => "Blocked · group"@,
        },
    }
}

pub fn capability_state_label(own: GrantState, e: Effective) -> (r: &'static str)
    ensures
        r@ == capability_label(own, e),
{
    match own {
        GrantState::Granted => "Allowed",
        GrantState::Denied => "Blocked",
        GrantState::Ask => match e {
            Effective::Granted => "Allowed · group",
            Effective::NeedsPrompt => "Asks · group",
            _ => "Blocked · group",
        },
    }
}

/// The detail line of an app in the list: where it is available, then
/// whether it was stopped for abuse or is running.
pub open spec fn row_detail(builtin: bool, room: Option<Seq<char>>, restricted: bool, running: bool) -> Seq<char> {
    let base = if builtin {
        "Built-in"@
    } else {
        match room {
            None => "Account-wide"@,
            Some(r) => "Room: "@ + r,
        }
    };
    if restricted {
        base + " · stopped for abuse"@
    } else if running {
        base + " · running"@
    } else {
        base
    }
}

/// The detail line of an app in the list.
pub fn app_row_detail(builtin: bool, room: Option<&str>, restricted: bool, running: bool) -> (r: String)
    ensures
        r@ == row_detail(
            builtin,
            match room {
                Some(s) => Some(s@),
                None => None,
            },
            restricted,
            running,
        ),
{
    let mut d = if builtin {
        owned("Built-in")
    } else {
        match room {
            None => owned("Account-wide"),
            Some(r) => concat("Room: ", r),
        }
    };
    if restricted {
        push_text(&mut d, " · stopped for abuse");
    } else if running {
        push_text(&mut d, " · running");
    }
    d
}

/// What kind of app the info page shows.
pub open spec fn kind_text(builtin: bool, room: Option<Seq<char>>) -> Seq<char> {
    if builtin {
        "Built-in mini-app · available account-wide"@
    } else {
        match room {
            None => "Your mini-app · available account-wide"@,
            Some(r) => "Your mini-app · scoped to room "@ + r,
        }
    }
}

pub fn info_kind(builtin: bool, room: Option<&str>) -> (r: String)
    ensures
        r@ == kind_text(
            builtin,
            match room {
                Some(s) => Some(s@),
                None => None,
            },
        ),
{
    if builtin {
        owned("Built-in mini-app · available account-wide")
    } else {
        match room {
            None => owned("Your mini-app · available account-wide"),
            Some(r) => concat("Your mini-app · scoped to room ", r),
        }
    }
}

/// The info page's line about the app's private storage.
pub open spec fn storage_text(bytes: u64) -> Seq<char> {
    "Saved data: "@ + decimal_text(bytes as nat) + " bytes in this app's private storage."@
}

pub fn storage_label(bytes: u64) -> (r: String)
    ensures
        r@ == storage_text(bytes),
{
    let mut s = concat("Saved data: ", decimal(bytes).as_str());
    push_text(&mut s, " bytes in this app's private storage.");
    s
}

/// Which console buttons show: stop while generating, retry when a failed
/// request can be retried, and a new prompt when idle.
pub fn console_buttons(running: bool, can_retry: bool) -> (r: (bool, bool, bool))
    ensures
        r == (running, !running && can_retry, !running),
{
    (running, !running && can_retry, !running)
}

/// The group named by a known id.
pub open spec fn group_named(id: Seq<char>) -> Permission {
    choose|p: Permission| perm_id(p) == id
}

/// An app's group rows at `now`: each declared id that names a group, in
/// declaration order, with what it nets out to.
pub open spec fn group_rows(s: StoreView, m: ManifestView, ids: Seq<Seq<char>>, now: u64) -> Seq<(Permission, Effective)>
    decreases ids.len(),
{
    if ids.len() == 0 {
        Seq::empty()
    } else {
        let r = group_rows(s, m, ids.drop_last(), now);
        if is_perm_id(ids.last()) {
            let p = group_named(ids.last());
            r.push((p, effective_at(s, m, p, now)))
        } else {
            r
        }
    }
}

/// The group rows of an app's info page at `now`.
pub fn permission_rows_at(store: &PermissionStore, manifest: &MiniAppManifest, now: u64) -> (r: Vec<(Permission, Effective)>)
    ensures
        r@ == group_rows(store@, manifest@, manifest@.permissions, now),
{
    let ghost ids = manifest@.permissions;
    let mut out: Vec<(Permission, Effective)> = Vec::new();
    let mut i: usize = 0;
    while i < manifest.permissions.len()
        invariant
            i <= ids.len(),
            ids == manifest@.permissions,
            out@ == group_rows(store@, manifest@, ids.take(i as int), now),
        decreases ids.len() - i,
    {
        let ghost next = ids.take(i + 1);
        assert(next.drop_last() =~= ids.take(i as int));
        assert(next.last() == manifest.permissions@[i as int]@);
        match Permission::from_str(manifest.permissions[i].as_str()) {
            Some(p) => {
                proof {
                    let q = group_named(next.last());
                    if q != p {
                        crate::permission::lemma_perm_ids_distinct(q, p);
                    }
                }
                let e = store.effective_at(manifest, p, now);
                out.push((p, e));
            },
            None => {},
        }
        i = i + 1;
    }
    assert(ids.take(ids.len() as int) =~= ids);
    out
}

/// Whether a capability's row shows for an app: available and declared.
pub open spec fn shown_for(m: ManifestView) -> spec_fn(CapabilityView) -> bool {
    |c: CapabilityView| status_available(c.status) && declares_capability(m, c)
}

/// The capability rows under a group row at `now`: the group's available
/// capabilities the app declares, in catalog order, each with its own
/// answer and what it nets out to.
pub open spec fn capability_rows(s: StoreView, m: ManifestView, p: Permission, now: u64) -> Seq<(CapabilityView, GrantState, Effective)> {
    catalog().filter(gated_by(p)).filter(shown_for(m)).map_values(
        |c: CapabilityView| (c, capability_state_of(s, m.id, c.id), effective_capability_at(s, m, c, now)),
    )
}

/// The views of a run of capability rows.
pub open spec fn cap_row_views(v: Seq<(Capability, GrantState, Effective)>) -> Seq<(CapabilityView, GrantState, Effective)> {
    v.map_values(|e: (Capability, GrantState, Effective)| (e.0@, e.1, e.2))
}

/// The capability rows under a group row at `now`.
pub fn capability_rows_at(store: &PermissionStore, manifest: &MiniAppManifest, perm: Permission, now: u64) -> (r: Vec<(Capability, GrantState, Effective)>)
    ensures
        cap_row_views(r@) == capability_rows(store@, manifest@, perm, now),
{
    let group = in_group(perm);
    let ghost gv = views(group@);
    let ghost pred = shown_for(manifest@);
    let ghost f = |c: CapabilityView| (c, capability_state_of(store@, manifest@.id, c.id), effective_capability_at(store@, manifest@, c, now));
    let mut out: Vec<(Capability, GrantState, Effective)> = Vec::new();
    let mut i: usize = 0;
    while i < group.len()
        invariant
            i <= group@.len(),
            gv == views(group@),
            gv == catalog().filter(gated_by(perm)),
            pred == shown_for(manifest@),
            f == (|c: CapabilityView| (c, capability_state_of(store@, manifest@.id, c.id), effective_capability_at(store@, manifest@, c, now))),
            cap_row_views(out@) == gv.take(i as int).filter(pred).map_values(f),
        decreases group@.len() - i,
    {
        let c = group[i];
        let ghost before = gv.take(i as int);
        let ghost next = gv.take(i + 1);
        let ghost old_out = out@;
        assert(next.drop_last() =~= before);
        assert(next.last() == c@);
        if c.is_available() && manifest.declares_capability(&c) {
            let own = store.capability_state(manifest.id.as_str(), c.id);
            let e = store.effective_capability_at(manifest, &c, now);
            out.push((c, own, e));
            assert(next.filter(pred) == before.filter(pred).push(c@)) by {
                reveal(Seq::filter);
            }
            assert(cap_row_views(out@) =~= cap_row_views(old_out).push((c@, own, e)));
            assert(next.filter(pred).map_values(f) =~= before.filter(pred).map_values(f).push(f(c@)));
        } else {
            assert(next.filter(pred) == before.filter(pred)) by {
                reveal(Seq::filter);
            }
        }
        i = i + 1;
    }
    assert(gv.take(group@.len() as int) =~= gv);
    out
}

/// What the permission prompt shows for one request.
#[derive(Debug)]
pub struct PromptInfo {
    pub app_name: String,
    pub app_icon: String,
    pub perm: Permission,
    /// The app's own reason for the group, if it declared one.
    pub reason: Option<String>,
    /// The title of the single ability that triggered the ask, when known.
    pub capability: Option<String>,
}

/// The user's answer to a prompt.
#[derive(Clone, Copy, Debug, PartialEq, Eq, Structural)]
pub enum PermissionPromptAction {
    Allow,
    /// A grant for this session only.
    AllowOnce,
    Deny,
    /// Nothing is stored; the app is not asked again this session.
    NotNow,
}

/// The prompt's headline: `icon "name" wants to: what`, naming the single
/// ability when known and the group otherwise.
pub open spec fn prompt_title_text(icon: Seq<char>, name: Seq<char>, p: Permission, capability: Option<Seq<char>>) -> Seq<char> {
    icon + " \""@ + name + "\" wants to: "@ + match capability {
        Some(c) => c,
        None => perm_title(p),
    }
}

pub fn prompt_title(info: &PromptInfo) -> (r: String)
    ensures
        r@ == prompt_title_text(info.app_icon@, info.app_name@, info.perm, crate::broker::opt_text(info.capability)),
{
    let mut s = owned(info.app_icon.as_str());
    push_text(&mut s, " \"");
    push_text(&mut s, info.app_name.as_str());
    push_text(&mut s, "\" wants to: ");
    match &info.capability {
        Some(c) => push_text(&mut s, c.as_str()),
        None => push_text(&mut s, info.perm.title()),
    }
    s
}

/// What allowing means: the group's blurb, and when a single ability asked,
/// that allowing covers its whole group.
pub open spec fn prompt_blurb_text(p: Permission, capability: Option<Seq<char>>) -> Seq<char> {
    match capability {
        Some(_) => perm_blurb(p) + " Allowing covers the \""@ + perm_title(p)
            + "\" group; single abilities can be blocked in App Info."@,
        None => perm_blurb(p),
    }
}

pub fn prompt_blurb(info: &PromptInfo) -> (r: String)
    ensures
        r@ == prompt_blurb_text(info.perm, crate::broker::opt_text(info.capability)),
{
    let mut s = owned(info.perm.blurb());
    match &info.capability {
        Some(_) => {
            push_text(&mut s, " Allowing covers the \"");
            push_text(&mut s, info.perm.title());
            push_text(&mut s, "\" group; single abilities can be blocked in App Info.");
        },
        None => {},
    }
    s
}

/// The app's stated reason, always attributed to the app.
pub open spec fn prompt_reason_text(reason: Option<Seq<char>>) -> Seq<char> {
    match reason {
        Some(r) => "The app's stated reason: \""@ + r + "\""@,
        None => "The app gave no reason for needing this."@,
    }
}

pub fn prompt_reason(info: &PromptInfo) -> (r: String)
    ensures
        r@ == prompt_reason_text(crate::broker::opt_text(info.reason)),
{
    match &info.reason {
        Some(reason) => {
            let mut s = concat("The app's stated reason: \"", reason.as_str());
            push_text(&mut s, "\"");
            s
        },
        None => owned("The app gave no reason for needing this."),
    }
}

/// Only runtime-tier groups offer "Allow Once".
pub fn offers_allow_once(perm: Permission) -> (r: bool)
    ensures
        r == (perm_tier(perm) == Tier::Runtime),
{
    match perm.tier() {
        Tier::Runtime => true,
        Tier::Normal => false,
    }
}

/// The declarations a shared app's card lists, comma-separated.
pub open spec fn joined(ids: Seq<Seq<char>>) -> Seq<char>
    decreases ids.len(),
{
    if ids.len() == 0 {
        Seq::empty()
    } else if ids.len() == 1 {
        ids[0]
    } else {
        joined(ids.drop_last()) + ", "@ + ids.last()
    }
}

/// What a shared app wants, as its card says it.
pub open spec fn wants_text(ids: Seq<Seq<char>>) -> Seq<char> {
    if ids.len() == 0 {
        "no permissions"@
    } else {
        joined(ids)
    }
}

pub fn card_wants(permissions: &Vec<String>) -> (r: String)
    ensures
        r@ == wants_text(texts(permissions@)),
{
    let ghost ids = texts(permissions@);
    if permissions.len() == 0 {
        return owned("no permissions");
    }
    let mut s = String::new();
    let mut i: usize = 0;
    while i < permissions.len()
        invariant
            i <= ids.len(),
            ids == texts(permissions@),
            ids.len() > 0,
            s@ == joined(ids.take(i as int)),
        decreases ids.len() - i,
    {
        let ghost t = ids.take(i + 1);
        assert(t.drop_last() =~= ids.take(i as int));
        assert(t.last() == permissions@[i as int]@);
        if i > 0 {
            push_text(&mut s, ", ");
        } else {
            assert(ids.take(0) =~= Seq::<Seq<char>>::empty());
        }
        push_text(&mut s, permissions[i].as_str());
        proof {
            if i == 0 {
                assert(s@ =~= joined(t));
            } else {
                assert(s@ =~= joined(t));
            }
        }
        i = i + 1;
    }
    assert(ids.take(ids.len() as int) =~= ids);
    s
}


/// The first installed app running the same script as a shared one, whose
/// card then offers Run instead of a second install.
pub open spec fn installed_copy_of(reg: Seq<ManifestView>, source: Seq<char>) -> Option<Seq<char>>
    decreases reg.len(),
{
    if reg.len() == 0 {
        None
    } else {
        match installed_copy_of(reg.drop_last(), source) {
            Some(id) => Some(id),
            None => if reg.last().source == source {
                Some(reg.last().id)
            } else {
                None
            },
        }
    }
}

/// The installed app running this script, if any.
pub fn installed_copy(registry: &AppRegistry, source: &str) -> (r: Option<String>)
    ensures
        crate::broker::opt_text(r) == installed_copy_of(registry.view(), source@),
{
    let apps = registry.iter();
    let ghost reg = registry.view();
    let mut i: usize = 0;
    assert(reg.take(0) =~= Seq::<ManifestView>::empty());
    while i < apps.len()
        invariant
            i <= apps@.len(),
            apps@.map_values(|m: MiniAppManifest| m@) == reg,
            reg == registry.view(),
            installed_copy_of(reg.take(i as int), source@) is None,
        decreases apps@.len() - i,
    {
        let ghost next = reg.take(i + 1);
        assert(next.drop_last() =~= reg.take(i as int));
        assert(next.last() == apps@[i as int]@);
        if crate::text::str_eq(apps[i].source.as_str(), source) {
            proof {
                assert(installed_copy_of(next, source@) == Some(apps@[i as int].id@));
                lemma_installed_copy_prefix(reg, source@, i + 1);
            }
            let id = apps[i].id.clone();
            assert(apps@[i as int]@.id == apps@[i as int].id@);
            assert(id@ == apps@[i as int].id@);
            return Some(id);
        }
        i = i + 1;
    }
    assert(reg.take(apps@.len() as int) =~= reg);
    None
}

proof fn lemma_installed_copy_prefix(reg: Seq<ManifestView>, source: Seq<char>, n: int)
    requires
        0 <= n <= reg.len(),
        installed_copy_of(reg.take(n), source) is Some,
    ensures
        installed_copy_of(reg, source) == installed_copy_of(reg.take(n), source),
    decreases reg.len() - n,
{
    if n < reg.len() {
        assert(reg.take(n + 1).drop_last() =~= reg.take(n));
        lemma_installed_copy_prefix(reg, source, n + 1);
    } else {
        assert(reg.take(n) =~= reg);
    }
}

/// The name line of a shared app's card.
pub open spec fn card_name_text(name: Seq<char>) -> Seq<char> {
    name + " — Splash mini-app"@
}

pub fn card_name(name: &str) -> (r: String)
    ensures
        r@ == card_name_text(name@),
{
    let mut s = owned(name);
    push_text(&mut s, " — Splash mini-app");
    s
}

/// The detail line of a shared app's card: who shared it, what it wants,
/// and that installing grants nothing.
pub open spec fn card_detail_text(sender: Seq<char>, ids: Seq<Seq<char>>) -> Seq<char> {
    "Shared by "@ + sender + " · wants: "@ + wants_text(ids)
        + ". Installing is not granting; you approve each permission."@
}

pub fn card_detail(sender: &str, permissions: &Vec<String>) -> (r: String)
    ensures
        r@ == card_detail_text(sender@, texts(permissions@)),
{
    let mut s = concat("Shared by ", sender);
    push_text(&mut s, " · wants: ");
    let w = card_wants(permissions);
    push_text(&mut s, w.as_str());
    push_text(&mut s, ". Installing is not granting; you approve each permission.");
    s
}

/// Whether an isolate's network runtime is switched on: only when the user
/// granted `network`, whatever the manifest says.
pub fn grants_allow_net(grants: &Vec<String>) -> (r: bool)
    ensures
        r == texts(grants@).contains("network"@),
{
    crate::text::contains_text(grants, "network")
}

} // verus!
