//! What holds of the permission store across its operations.

use vstd::prelude::*;

use crate::capabilities::{catalog, status_available, CapabilityView};
use crate::manifest::{declares, declares_capability, ManifestView};
use crate::permission::{all_perms, lemma_perm_ids_distinct, perm_id, perm_tier, Permission, Tier};
use crate::store::{
    blocked, capability_answered, capability_granted, capability_state_of, collapses, declared_key,
    declares_pred, declaring_rows, effective_at, effective_capability_at, expired, forgotten,
    granted_caps_at, granted_declared_pred, granted_once,
    group_granted, recorded, reset, restricted_store, state_of, stored, timed, timed_live,
    unrestricted_store, use_count_of, used, AccessView, Effective, GrantState, RestrictionView,
    StoreView, MAX_ACCESS_RECORDS,
};

verus! {

/// A group the app does not declare is never granted, whatever the store
/// holds for it.
pub proof fn law_undeclared_is_never_granted(s: StoreView, m: ManifestView, p: Permission, now: u64)
    requires
        !declares(m, p),
    ensures
        effective_at(s, m, p, now) == Effective::Undeclared,
{
}

/// An app that declares nothing is told of no usable name, whatever the
/// store holds for it.
pub proof fn law_nothing_declared_nothing_granted(s: StoreView, m: ManifestView, now: u64)
    requires
        forall|p: Permission| !declares(m, p),
    ensures
        granted_caps_at(s, m, now).len() == 0,
{
    broadcast use vstd::seq_lib::group_filter_ensures;

    let f = all_perms().filter(group_granted(s, m, now));
    let g = catalog().filter(capability_granted(s, m, now));
    if f.len() > 0 {
        assert(group_granted(s, m, now)(f[0]));
    }
    if g.len() > 0 {
        assert(capability_granted(s, m, now)(g[0]));
        assert(!declares(m, g[0].group.unwrap()));
    }
}

/// A restricted app holds nothing: no group and no capability nets out to
/// granted, and it is told of no usable name.
pub proof fn law_restricted_app_holds_nothing(s: StoreView, m: ManifestView, now: u64)
    requires
        s.restricted.contains_key(m.id),
    ensures
        forall|p: Permission| #[trigger] effective_at(s, m, p, now) != Effective::Granted,
        forall|c: CapabilityView| #[trigger] effective_capability_at(s, m, c, now) != Effective::Granted,
        granted_caps_at(s, m, now).len() == 0,
{
    broadcast use vstd::seq_lib::group_filter_ensures;

    let f = all_perms().filter(group_granted(s, m, now));
    let g = catalog().filter(capability_granted(s, m, now));
    if f.len() > 0 {
        assert(group_granted(s, m, now)(f[0]));
    }
    if g.len() > 0 {
        assert(capability_granted(s, m, now)(g[0]));
    }
}

/// Lifting a bar that was just put on an app that had none gives back the
/// store exactly as it was.
pub proof fn law_unrestrict_undoes_restrict(s: StoreView, app: Seq<char>, r: RestrictionView)
    requires
        !s.restricted.contains_key(app),
    ensures
        unrestricted_store(restricted_store(s, app, r), app) == s,
{
    assert(s.restricted.insert(app, r).remove(app) =~= s.restricted);
}

/// A stored answer reads back as stored, and it ends any one-time grant for
/// the pair.
pub proof fn law_stored_answer_reads_back(s: StoreView, app: Seq<char>, p: Permission, g: GrantState)
    ensures
        state_of(stored(s, app, p, g), app, p) == g,
        !stored(s, app, p, g).once.contains((app, perm_id(p))),
        forall|q: Permission| q != p ==> #[trigger] state_of(stored(s, app, p, g), app, q) == state_of(s, app, q),
{
    assert forall|q: Permission| q != p implies #[trigger] state_of(stored(s, app, p, g), app, q) == state_of(s, app, q) by {
        lemma_perm_ids_distinct(q, p);
    }
}

/// For a declared group of an app that is not restricted, an explicit
/// answer decides: `Granted` grants whatever the tier and strict mode, and
/// `Denied` denies even over a one-time or timed grant.
pub proof fn law_explicit_answer_decides(s: StoreView, m: ManifestView, p: Permission, now: u64)
    requires
        declares(m, p),
        !s.restricted.contains_key(m.id),
    ensures
        state_of(s, m.id, p) == GrantState::Granted ==> effective_at(s, m, p, now) == Effective::Granted,
        state_of(s, m.id, p) == GrantState::Denied ==> effective_at(s, m, p, now) == Effective::Denied,
{
}

/// With no answer, no one-time and no live timed grant, a declared group of
/// an unrestricted app is granted exactly when it is of the normal tier and
/// strict mode is off; otherwise the user is asked.
pub proof fn law_unanswered_follows_tier_and_strict_mode(s: StoreView, m: ManifestView, p: Permission, now: u64)
    requires
        declares(m, p),
        !s.restricted.contains_key(m.id),
        state_of(s, m.id, p) == GrantState::Ask,
        !s.once.contains((m.id, perm_id(p))),
        !timed_live(s, m.id, p, now),
    ensures
        effective_at(s, m, p, now) == if perm_tier(p) == Tier::Normal && !s.strict {
            Effective::Granted
        } else {
            Effective::NeedsPrompt
        },
{
}

/// "Allow once" grants a declared group of an unrestricted app unless the
/// user denied it.
pub proof fn law_once_grants_unless_denied(s: StoreView, m: ManifestView, p: Permission, now: u64)
    requires
        declares(m, p),
        !s.restricted.contains_key(m.id),
    ensures
        effective_at(granted_once(s, m.id, p), m, p, now) == if state_of(s, m.id, p) == GrantState::Denied {
            Effective::Denied
        } else {
            Effective::Granted
        },
{
}

/// A timed grant grants a declared group of an unrestricted app until it
/// runs out, and afterwards leaves no stored answer behind: the pair is
/// back to `Ask`, never to a `Denied` nobody chose.
pub proof fn law_timed_grant_lapses_to_ask(s: StoreView, m: ManifestView, p: Permission, until: u64, now: u64)
    requires
        declares(m, p),
        !s.restricted.contains_key(m.id),
    ensures
        now < until ==> effective_at(timed(s, m.id, p, until), m, p, now) == Effective::Granted,
        state_of(expired(timed(s, m.id, p, until), now), m.id, p) == GrantState::Ask,
        until <= now ==> !timed_live(expired(timed(s, m.id, p, until), now), m.id, p, now),
{
}

/// Dropping the grants that ran out at `now` changes nothing that any
/// group nets out to at `now` or later.
pub proof fn law_expiry_changes_no_answer(s: StoreView, m: ManifestView, p: Permission, now: u64, later: u64)
    requires
        now <= later,
    ensures
        effective_at(expired(s, now), m, p, later) == effective_at(s, m, p, later),
{
    let k = (m.id, perm_id(p));
    if s.until.contains_key(k) && s.until[k] > later {
        assert(expired(s, now).until.contains_key(k));
    }
}

/// After "Block all", every group the app declares is denied.
pub proof fn law_block_all_denies_every_declared_group(s: StoreView, m: ManifestView, p: Permission, now: u64)
    requires
        declares(m, p),
    ensures
        state_of(blocked(s, m), m.id, p) == GrantState::Denied,
        effective_at(blocked(s, m), m, p, now) == Effective::Denied,
{
    assert(declared_key(m, (m.id, perm_id(p))));
}

/// Forgetting an app leaves nothing of it: every group is back to `Ask`
/// with no use counted and no one-time or timed grant, and every
/// capability follows its group again. Restrictions stay.
pub proof fn law_forgotten_app_starts_over(s: StoreView, app: Seq<char>, p: Permission, cap: Seq<char>, now: u64)
    ensures
        state_of(forgotten(s, app), app, p) == GrantState::Ask,
        use_count_of(forgotten(s, app), app, p) == 0,
        !forgotten(s, app).once.contains((app, perm_id(p))),
        !timed_live(forgotten(s, app), app, p, now),
        capability_state_of(forgotten(s, app), app, cap) == GrantState::Ask,
        forgotten(s, app).restricted == s.restricted,
        forall|i: int| 0 <= i < forgotten(s, app).access.len() ==> (#[trigger] forgotten(s, app).access[i]).app_id != app,
{
    broadcast use vstd::seq_lib::group_filter_ensures;

    let pred = |r: AccessView| r.app_id != app;
}

/// Resetting forgets every answer but keeps restrictions and strict mode.
pub proof fn law_reset_keeps_restrictions(s: StoreView, app: Seq<char>, p: Permission, cap: Seq<char>)
    ensures
        state_of(reset(s), app, p) == GrantState::Ask,
        capability_state_of(reset(s), app, cap) == GrantState::Ask,
        reset(s).restricted == s.restricted,
        reset(s).strict == s.strict,
{
}

/// A capability answer sits under its group: `Ask` follows the group's
/// answer, `Denied` denies, and a group that nets out to denied beats any
/// capability answer.
pub proof fn law_capability_answers_layer_under_groups(
    s: StoreView,
    m: ManifestView,
    c: CapabilityView,
    g: Permission,
    now: u64,
)
    requires
        status_available(c.status),
        declares_capability(m, c),
        !s.restricted.contains_key(m.id),
        c.group == Some(g),
    ensures
        capability_state_of(s, m.id, c.id) == GrantState::Ask ==> effective_capability_at(s, m, c, now)
            == effective_at(s, m, g, now),
        capability_state_of(s, m.id, c.id) == GrantState::Denied ==> effective_capability_at(s, m, c, now)
            == Effective::Denied,
        effective_at(s, m, g, now) == Effective::Denied ==> effective_capability_at(s, m, c, now)
            == Effective::Denied,
        capability_state_of(capability_answered(s, m.id, c.id, GrantState::Ask), m.id, c.id)
            == GrantState::Ask,
{
}

/// Each use counts exactly once, and the newest access record is that use.
pub proof fn law_use_is_counted_and_recorded(s: StoreView, app: Seq<char>, p: Permission, at: u64)
    requires
        use_count_of(s, app, p) < u64::MAX,
    ensures
        use_count_of(used(s, app, p, at), app, p) == use_count_of(s, app, p) + 1,
        used(s, app, p, at).access.last() == (AccessView { app_id: app, perm: perm_id(p), at }),
{
    let acc = s.access;
    if collapses(acc, app, p, at) {
        assert(recorded(acc, app, p, at).last() == (AccessView { app_id: app, perm: perm_id(p), at }));
    } else {
        let pushed = acc.push(AccessView { app_id: app, perm: perm_id(p), at });
        assert(pushed.last() == (AccessView { app_id: app, perm: perm_id(p), at }));
    }
}

/// The access record never grows past [`MAX_ACCESS_RECORDS`].
pub proof fn law_access_record_is_bounded(acc: Seq<AccessView>, app: Seq<char>, p: Permission, at: u64)
    requires
        acc.len() <= MAX_ACCESS_RECORDS,
    ensures
        recorded(acc, app, p, at).len() <= MAX_ACCESS_RECORDS,
{
}

/// An explicit allow on a capability wins over a group that is still to be
/// asked or granted: only a denied or undeclared group beats it.
pub proof fn law_capability_allow_needs_only_an_open_group(
    s: StoreView,
    m: ManifestView,
    c: CapabilityView,
    g: Permission,
    now: u64,
)
    requires
        status_available(c.status),
        declares_capability(m, c),
        !s.restricted.contains_key(m.id),
        c.group == Some(g),
        capability_state_of(s, m.id, c.id) == GrantState::Granted,
        effective_at(s, m, g, now) != Effective::Denied,
        effective_at(s, m, g, now) != Effective::Undeclared,
    ensures
        effective_capability_at(s, m, c, now) == Effective::Granted,
{
}

/// Answering a capability "allow" makes it usable whenever its group is not
/// denied, and leaves what the group nets out to as it was.
pub proof fn law_allowing_a_capability_opens_it(
    s: StoreView,
    m: ManifestView,
    c: CapabilityView,
    g: Permission,
    now: u64,
)
    requires
        status_available(c.status),
        declares_capability(m, c),
        !s.restricted.contains_key(m.id),
        c.group == Some(g),
        effective_at(s, m, g, now) != Effective::Denied,
    ensures
        effective_capability_at(capability_answered(s, m.id, c.id, GrantState::Granted), m, c, now)
            == Effective::Granted,
        effective_at(capability_answered(s, m.id, c.id, GrantState::Granted), m, g, now) == effective_at(s, m, g, now),
{
    let t = capability_answered(s, m.id, c.id, GrantState::Granted);
    assert(effective_at(t, m, g, now) == effective_at(s, m, g, now));
    assert(capability_state_of(t, m.id, c.id) == GrantState::Granted);
}

/// The groups that reach past the app's own pane (the network, the
/// device's sensors and clipboard, other apps, the user's rooms, account and
/// the host's UI) ask the user before their first use.
pub open spec fn asks_before_first_use(p: Permission) -> bool {
    ||| p is Network
    ||| p is Location
    ||| p is Notifications
    ||| p is ClipboardRead
    ||| p is Ipc
    ||| p is MatrixRoomRead
    ||| p is MatrixRoomSend
    ||| p is Camera
    ||| p is Microphone
    ||| p is MatrixAccountRead
    ||| p is MatrixAccountWrite
    ||| p is MatrixUsers
    ||| p is MatrixRoomWatch
    ||| p is MatrixRoomInteract
    ||| p is MatrixRoomAppData
    ||| p is MatrixRoomManage
    ||| p is MatrixRoomInvite
    ||| p is MatrixMedia
    ||| p is MatrixRoomsList
    ||| p is MatrixRoomsRead
    ||| p is MatrixRoomsSend
    ||| p is MatrixMembership
    ||| p is MatrixSpaces
    ||| p is RobrixNavigation
    ||| p is RobrixComposer
    ||| p is RobrixUi
    ||| p is RobrixObserve
}

/// A declared group that nobody answered yet, with no one-time or live
/// timed grant, needs a prompt when it is one that asks before first use;
/// any other group is granted on declaration unless strict mode is on.
pub proof fn law_unanswered_groups_ask_or_are_granted(s: StoreView, m: ManifestView, p: Permission, now: u64)
    requires
        declares(m, p),
        !s.restricted.contains_key(m.id),
        state_of(s, m.id, p) == GrantState::Ask,
        !s.once.contains((m.id, perm_id(p))),
        !timed_live(s, m.id, p, now),
    ensures
        asks_before_first_use(p) ==> effective_at(s, m, p, now) == Effective::NeedsPrompt,
        !asks_before_first_use(p) && !s.strict ==> effective_at(s, m, p, now) == Effective::Granted,
        !asks_before_first_use(p) && s.strict ==> effective_at(s, m, p, now) == Effective::NeedsPrompt,
{
}

/// The rows `declaring_rows` lists that are granted.
pub open spec fn granted_rows(rows: Seq<(ManifestView, Effective)>) -> Seq<(ManifestView, Effective)> {
    rows.filter(|r: (ManifestView, Effective)| r.1 == Effective::Granted)
}

/// Counting the apps that declare `p` and can use it now gives the number of
/// the declaring apps' rows whose answer is granted: an app still waiting on
/// a prompt, or denied, does not count; and no more apps can use `p` than
/// declare it.
pub proof fn law_tally_counts_the_granted_declarers(s: StoreView, reg: Seq<ManifestView>, p: Permission, now: u64)
    ensures
        reg.filter(granted_declared_pred(s, p, now)).len() == granted_rows(declaring_rows(s, reg, p, now)).len(),
        reg.filter(granted_declared_pred(s, p, now)).len() <= reg.filter(declares_pred(p)).len(),
    decreases reg.len(),
{
    reveal(Seq::filter);
    if reg.len() > 0 {
        let init = reg.drop_last();
        let last = reg.last();
        law_tally_counts_the_granted_declarers(s, init, p, now);
        let e = effective_at(s, last, p, now);
        let di = init.filter(declares_pred(p));
        let ri = declaring_rows(s, init, p, now);
        let rr = declaring_rows(s, reg, p, now);
        assert(reg.drop_last() =~= init);
        assert(reg.filter(granted_declared_pred(s, p, now)) == if declares(last, p) && e == Effective::Granted {
            init.filter(granted_declared_pred(s, p, now)).push(last)
        } else {
            init.filter(granted_declared_pred(s, p, now))
        });
        if declares(last, p) {
            assert(reg.filter(declares_pred(p)) == di.push(last));
            assert(rr =~= ri.push((last, e)));
            assert(rr.drop_last() =~= ri);
            assert(granted_rows(rr) == if e == Effective::Granted {
                granted_rows(ri).push((last, e))
            } else {
                granted_rows(ri)
            });
        } else {
            assert(reg.filter(declares_pred(p)) == di);
            assert(rr =~= ri);
        }
    }
}

} // verus!
