//! The permission store: what the user has answered, and what that nets out
//! to for each app and capability.
//!
//! Deny by default: a capability is reachable only when the app declares it
//! and the user's stored answer (or the tier default) allows it. Grants are
//! host state, deliberately outside every app's own storage.

use vstd::prelude::*;

use crate::capabilities::{
    catalog, catalog_entry, status_available, Capability, CapabilityView, CATALOG_LEN,
};
use crate::clock::unix_now;
use crate::manifest::{
    declares, declares_capability, dedup_filter, is_perm_id, ManifestView, MiniAppId, MiniAppManifest,
};
use crate::maps::{
    increasing, pair_lt, pair_texts, pairs_increasing, triple_views, triples_map, PairMap, StrMap,
};
use crate::permission::{
    all_perms, lemma_perm_ids_distinct, lemma_perm_index, perm_at, perm_id, perm_index, perm_tier, Permission, Tier,
    PERMISSION_COUNT,
};
use crate::registry::AppRegistry;
use crate::text::{
    compare_text, lemma_text_lt_total, lemma_text_lt_transitive, lowercase, owned,
    copy_strings, str_eq, text_lt, texts, to_lowercase, TextOrder,
};

verus! {

/// The user's stored answer for one (app, permission).
#[derive(Clone, Copy, Debug, PartialEq, Eq, Structural, Default)]
pub enum GrantState {
    /// Never asked (or reset): runtime tiers prompt, normal tiers are granted.
    #[default]
    Ask,
    Granted,
    Denied,
}

/// What a request nets out to right now.
#[derive(Clone, Copy, Debug, PartialEq, Eq, Structural)]
pub enum Effective {
    Granted,
    Denied,
    /// Declared, runtime tier, still `Ask`: park the request and prompt.
    NeedsPrompt,
    /// Not in the app's manifest: refuse without ever prompting.
    Undeclared,
}

/// One recorded use of a capability, for the "recent access" line. A privacy
/// receipt, not telemetry: it holds no request contents.
#[derive(Debug)]
pub struct AccessRecord {
    pub app_id: MiniAppId,
    /// Permission id (a string, so an id unknown to this build survives).
    pub perm: String,
    /// Unix seconds.
    pub at: u64,
}

/// The mathematical content of an [`AccessRecord`].
pub struct AccessView {
    pub app_id: Seq<char>,
    pub perm: Seq<char>,
    pub at: u64,
}

impl View for AccessRecord {
    type V = AccessView;

    open spec fn view(&self) -> AccessView {
        AccessView { app_id: self.app_id@, perm: self.perm@, at: self.at }
    }
}

impl Clone for AccessRecord {
    fn clone(&self) -> (r: Self)
        ensures
            r@ == self@,
    {
        AccessRecord { app_id: self.app_id.clone(), perm: self.perm.clone(), at: self.at }
    }
}

/// Most access records kept.
pub const MAX_ACCESS_RECORDS: usize = 240;

/// Why an app is barred from running, so the user is told what happened.
#[derive(Debug)]
pub struct Restriction {
    /// User-facing sentence, e.g. "made too many requests to the system".
    pub reason: String,
    /// When the host stopped it, unix seconds.
    pub at: u64,
    /// How many of its requests had already been refused when it was stopped.
    pub refusals: u64,
}

/// The mathematical content of a [`Restriction`].
pub struct RestrictionView {
    pub reason: Seq<char>,
    pub at: u64,
    pub refusals: u64,
}

impl View for Restriction {
    type V = RestrictionView;

    open spec fn view(&self) -> RestrictionView {
        RestrictionView { reason: self.reason@, at: self.at, refusals: self.refusals }
    }
}

impl Clone for Restriction {
    fn clone(&self) -> (r: Self)
        ensures
            r@ == self@,
    {
        Restriction { reason: self.reason.clone(), at: self.at, refusals: self.refusals }
    }
}

/// The session's one-time grants ("Allow Once"), as (app id, group id)
/// pairs. Only groups are ever granted once, which the type keeps.
#[derive(Debug)]
pub struct OnceGrants {
    keys: PairMap<()>,
}

impl View for OnceGrants {
    type V = Set<(Seq<char>, Seq<char>)>;

    closed spec fn view(&self) -> Set<(Seq<char>, Seq<char>)> {
        self.keys.view().dom()
    }
}

impl OnceGrants {
    /// Every pair names a group.
    #[verifier::type_invariant]
    spec fn names_groups(self) -> bool {
        forall|k: (Seq<char>, Seq<char>)| #[trigger] self.keys.view().contains_key(k) ==> is_perm_id(k.1)
    }

    /// No one-time grant.
    pub fn new() -> (g: OnceGrants)
        ensures
            g@ == Set::<(Seq<char>, Seq<char>)>::empty(),
    {
        let g = OnceGrants { keys: PairMap::new() };
        assert(g@ =~= Set::<(Seq<char>, Seq<char>)>::empty());
        g
    }

    /// Grants `perm` once to `app`.
    pub fn grant(&mut self, app: &str, perm: Permission)
        ensures
            final(self)@ == old(self)@.insert((app@, perm_id(perm))),
    {
        proof {
            use_type_invariant(&*self);
        }
        let mut keys = PairMap::new();
        std::mem::swap(&mut keys, &mut self.keys);
        keys.insert(app, perm.as_str(), ());
        self.keys = keys;
        assert(self@ =~= old(self)@.insert((app@, perm_id(perm))));
    }

    /// Takes back a one-time grant of `perm` to `app`.
    pub fn revoke(&mut self, app: &str, perm: Permission)
        ensures
            final(self)@ == old(self)@.remove((app@, perm_id(perm))),
    {
        proof {
            use_type_invariant(&*self);
        }
        let mut keys = PairMap::new();
        std::mem::swap(&mut keys, &mut self.keys);
        let _ = keys.remove(app, perm.as_str());
        self.keys = keys;
        assert(self@ =~= old(self)@.remove((app@, perm_id(perm))));
    }

    /// Whether `app` holds `perm` once.
    pub fn holds(&self, app: &str, perm: Permission) -> (r: bool)
        ensures
            r == self@.contains((app@, perm_id(perm))),
    {
        self.keys.contains_key(app, perm.as_str())
    }

    /// Takes back every one-time grant of `app`, reporting whether it held
    /// one of any group.
    pub fn clear_app(&mut self, app: &str) -> (changed: bool)
        ensures
            final(self)@ == old(self)@.filter(|k: (Seq<char>, Seq<char>)| k.0 != app@),
            changed == exists|p: Permission| old(self)@.contains((app@, perm_id(p))),
    {
        proof {
            use_type_invariant(&*self);
        }
        let changed = self.keys.has_app(app);
        proof {
            if changed {
                let k = choose|k: Seq<char>| self.keys.view().contains_key((app@, k));
                assert(is_perm_id(k));
                let p = choose|p: Permission| perm_id(p) == k;
                assert(old(self)@.contains((app@, perm_id(p))));
            }
        }
        let mut keys = PairMap::new();
        std::mem::swap(&mut keys, &mut self.keys);
        keys.remove_app(app);
        self.keys = keys;
        assert(self@ =~= old(self)@.filter(|k: (Seq<char>, Seq<char>)| k.0 != app@));
        changed
    }

    /// Takes back every one-time grant.
    pub fn clear(&mut self)
        ensures
            final(self)@ == Set::<(Seq<char>, Seq<char>)>::empty(),
    {
        self.keys = PairMap::new();
        assert(self@ =~= Set::<(Seq<char>, Seq<char>)>::empty());
    }

    /// A copy holding the same grants.
    pub fn duplicate(&self) -> (r: OnceGrants)
        ensures
            r@ == self@,
    {
        proof {
            use_type_invariant(self);
        }
        let keys = PairMap::from_entries(&self.keys.entries());
        let r = OnceGrants { keys };
        assert(r@ =~= self@);
        r
    }
}

/// All grants and their bookkeeping, keyed by app id and permission or
/// capability id.
#[derive(Debug)]
pub struct PermissionStore {
    grants: PairMap<GrantState>,
    /// Per-capability answers layered under the group grants: `Ask` follows
    /// the group, `Granted`/`Denied` override it (a group `Denied` still wins).
    cap_overrides: PairMap<GrantState>,
    /// Newest-last ring of capability uses.
    access: Vec<AccessRecord>,
    /// One-time grants, for this session only.
    once: OnceGrants,
    /// Grants that expire on the clock, as unix seconds.
    until: PairMap<u64>,
    /// How many times each app has exercised each capability.
    uses: PairMap<u64>,
    /// Normal-tier permissions stop being granted on declaration.
    strict: bool,
    /// Apps the host stopped for abusing the bridge, and why.
    restricted: StrMap<Restriction>,
}

/// The mathematical content of a [`PermissionStore`].
pub struct StoreView {
    pub grants: Map<(Seq<char>, Seq<char>), GrantState>,
    pub cap_overrides: Map<(Seq<char>, Seq<char>), GrantState>,
    pub access: Seq<AccessView>,
    pub once: Set<(Seq<char>, Seq<char>)>,
    pub until: Map<(Seq<char>, Seq<char>), u64>,
    pub uses: Map<(Seq<char>, Seq<char>), u64>,
    pub strict: bool,
    pub restricted: Map<Seq<char>, RestrictionView>,
}

impl View for PermissionStore {
    type V = StoreView;

    closed spec fn view(&self) -> StoreView {
        StoreView {
            grants: self.grants.view(),
            cap_overrides: self.cap_overrides.view(),
            access: self.access@.map_values(|r: AccessRecord| r@),
            once: self.once@,
            until: self.until.view(),
            uses: self.uses.view(),
            strict: self.strict,
            restricted: self.restricted.view().map_values(|r: Restriction| r@),
        }
    }
}

/// The stored answer for a group, `Ask` when there is none.
pub open spec fn state_of(s: StoreView, app: Seq<char>, p: Permission) -> GrantState {
    if s.grants.contains_key((app, perm_id(p))) {
        s.grants[(app, perm_id(p))]
    } else {
        GrantState::Ask
    }
}

/// The stored answer for a single capability, `Ask` (follow the group) when
/// there is none.
pub open spec fn capability_state_of(s: StoreView, app: Seq<char>, cap: Seq<char>) -> GrantState {
    if s.cap_overrides.contains_key((app, cap)) {
        s.cap_overrides[(app, cap)]
    } else {
        GrantState::Ask
    }
}

/// A timed grant for the pair that has not run out at `now`.
pub open spec fn timed_live(s: StoreView, app: Seq<char>, p: Permission, now: u64) -> bool {
    s.until.contains_key((app, perm_id(p))) && s.until[(app, perm_id(p))] > now
}

/// How many times an app has used a group, 0 when never.
pub open spec fn use_count_of(s: StoreView, app: Seq<char>, p: Permission) -> u64 {
    if s.uses.contains_key((app, perm_id(p))) {
        s.uses[(app, perm_id(p))]
    } else {
        0
    }
}

/// What a group nets out to for an app at time `now`: undeclared is never
/// grantable; a restricted app holds nothing; a one-time or live timed grant
/// outranks `Ask` but never a stored `Denied`; otherwise the stored answer,
/// with `Ask` granting the normal tier unless strict mode is on.
pub open spec fn effective_at(s: StoreView, m: ManifestView, p: Permission, now: u64) -> Effective {
    let stored = state_of(s, m.id, p);
    if !declares(m, p) {
        Effective::Undeclared
    } else if s.restricted.contains_key(m.id) {
        Effective::Denied
    } else if stored != GrantState::Denied && (s.once.contains((m.id, perm_id(p))) || timed_live(
        s,
        m.id,
        p,
        now,
    )) {
        Effective::Granted
    } else {
        match stored {
            GrantState::Granted => Effective::Granted,
            GrantState::Denied => Effective::Denied,
            GrantState::Ask => if perm_tier(p) == Tier::Normal && !s.strict {
                Effective::Granted
            } else {
                Effective::NeedsPrompt
            },
        }
    }
}

/// What one capability nets out to: unavailable or undeclared ones are
/// undeclared; a restricted app holds nothing; plumbing is always granted;
/// otherwise its own override first, then its group's answer, with a group
/// that is denied or undeclared beating a capability override.
pub open spec fn effective_capability_at(
    s: StoreView,
    m: ManifestView,
    c: CapabilityView,
    now: u64,
) -> Effective {
    if !status_available(c.status) {
        Effective::Undeclared
    } else if !declares_capability(m, c) {
        Effective::Undeclared
    } else if s.restricted.contains_key(m.id) {
        Effective::Denied
    } else {
        match c.group {
            None => Effective::Granted,
            Some(g) => {
                let ge = effective_at(s, m, g, now);
                match capability_state_of(s, m.id, c.id) {
                    GrantState::Denied => Effective::Denied,
                    GrantState::Granted => match ge {
                        Effective::Denied => Effective::Denied,
                        Effective::Undeclared => Effective::Undeclared,
                        _ => Effective::Granted,
                    },
                    GrantState::Ask => ge,
                }
            },
        }
    }
}

/// Whether a group is granted to an app at `now`.
pub open spec fn group_granted(s: StoreView, m: ManifestView, now: u64) -> spec_fn(Permission) -> bool {
    |p: Permission| effective_at(s, m, p, now) == Effective::Granted
}

/// Whether a gated capability is granted to an app at `now`.
pub open spec fn capability_granted(s: StoreView, m: ManifestView, now: u64) -> spec_fn(CapabilityView) -> bool {
    |c: CapabilityView| c.group is Some && effective_capability_at(s, m, c, now) == Effective::Granted
}

/// The ids of a run of groups.
pub open spec fn perm_ids(v: Seq<Permission>) -> Seq<Seq<char>> {
    v.map_values(|p: Permission| perm_id(p))
}

/// The ids of a run of capabilities.
pub open spec fn cap_ids(v: Seq<CapabilityView>) -> Seq<Seq<char>> {
    v.map_values(|c: CapabilityView| c.id)
}

/// The group ids granted to an app at `now`, in declaration order.
pub open spec fn granted_group_ids(s: StoreView, m: ManifestView, now: u64) -> Seq<Seq<char>> {
    perm_ids(all_perms().filter(group_granted(s, m, now)))
}

/// The ids of the gated capabilities granted to an app at `now`, in catalog
/// order.
pub open spec fn granted_capability_ids(s: StoreView, m: ManifestView, now: u64) -> Seq<Seq<char>> {
    cap_ids(catalog().filter(capability_granted(s, m, now)))
}

/// What `host.capabilities()` reports: every granted group id, then every
/// granted capability id.
pub open spec fn granted_caps_at(s: StoreView, m: ManifestView, now: u64) -> Seq<Seq<char>> {
    granted_group_ids(s, m, now) + granted_capability_ids(s, m, now)
}

/// The view with the grant maps replaced.
pub open spec fn with_grants(
    s: StoreView,
    grants: Map<(Seq<char>, Seq<char>), GrantState>,
    once: Set<(Seq<char>, Seq<char>)>,
) -> StoreView {
    StoreView { grants, once, ..s }
}


/// The store after an answer is stored for a group; a durable answer
/// supersedes any one-time grant for the pair.
pub open spec fn stored(s: StoreView, app: Seq<char>, p: Permission, g: GrantState) -> StoreView {
    with_grants(s, s.grants.insert((app, perm_id(p)), g), s.once.remove((app, perm_id(p))))
}

/// The store after a timed grant until `until`: the stored answer and any
/// one-time grant for the pair make way for it.
pub open spec fn timed(s: StoreView, app: Seq<char>, p: Permission, until: u64) -> StoreView {
    StoreView {
        grants: s.grants.remove((app, perm_id(p))),
        once: s.once.remove((app, perm_id(p))),
        until: s.until.insert((app, perm_id(p)), until),
        ..s
    }
}

/// The store after a one-time grant.
pub open spec fn granted_once(s: StoreView, app: Seq<char>, p: Permission) -> StoreView {
    StoreView { once: s.once.insert((app, perm_id(p))), ..s }
}

/// The store with an app barred from running.
pub open spec fn restricted_store(s: StoreView, app: Seq<char>, r: RestrictionView) -> StoreView {
    StoreView { restricted: s.restricted.insert(app, r), ..s }
}

/// The store with an app's bar lifted.
pub open spec fn unrestricted_store(s: StoreView, app: Seq<char>) -> StoreView {
    StoreView { restricted: s.restricted.remove(app), ..s }
}

/// The store after one capability's answer is set; `Ask` clears it.
pub open spec fn capability_answered(s: StoreView, app: Seq<char>, cap: Seq<char>, g: GrantState) -> StoreView {
    StoreView {
        cap_overrides: if g == GrantState::Ask {
            s.cap_overrides.remove((app, cap))
        } else {
            s.cap_overrides.insert((app, cap), g)
        },
        ..s
    }
}

/// The store with every answer forgotten: restrictions, use counts, the
/// access record and strict mode stay.
pub open spec fn reset(s: StoreView) -> StoreView {
    StoreView {
        grants: Map::empty(),
        cap_overrides: Map::empty(),
        until: Map::empty(),
        once: Set::empty(),
        ..s
    }
}

impl PermissionStore {
    /// An empty store: nothing answered, strict mode off, nobody restricted.
    pub fn new() -> (s: PermissionStore)
        ensures
            s@.grants == Map::<(Seq<char>, Seq<char>), GrantState>::empty(),
            s@.cap_overrides == Map::<(Seq<char>, Seq<char>), GrantState>::empty(),
            s@.access == Seq::<AccessView>::empty(),
            s@.once == Set::<(Seq<char>, Seq<char>)>::empty(),
            s@.until == Map::<(Seq<char>, Seq<char>), u64>::empty(),
            s@.uses == Map::<(Seq<char>, Seq<char>), u64>::empty(),
            !s@.strict,
            s@.restricted == Map::<Seq<char>, RestrictionView>::empty(),
    {
        let s = PermissionStore {
            grants: PairMap::new(),
            cap_overrides: PairMap::new(),
            access: Vec::new(),
            once: OnceGrants::new(),
            until: PairMap::new(),
            uses: PairMap::new(),
            strict: false,
            restricted: StrMap::new(),
        };
        assert(s@.access =~= Seq::<AccessView>::empty());
        assert(s@.once =~= Set::<(Seq<char>, Seq<char>)>::empty());
        assert(s@.restricted =~= Map::<Seq<char>, RestrictionView>::empty());
        s
    }

    /// The stored answer for a group.
    pub fn state(&self, app_id: &str, perm: Permission) -> (g: GrantState)
        ensures
            g == state_of(self@, app_id@, perm),
    {
        match self.grants.get(app_id, perm.as_str()) {
            Some(g) => *g,
            None => GrantState::Ask,
        }
    }

    /// Stores an answer for a group. A durable answer supersedes any
    /// one-time grant for the same pair.
    pub fn set(&mut self, app_id: &str, perm: Permission, state: GrantState)
        ensures
            final(self)@ == stored(old(self)@, app_id@, perm, state),
    {
        self.once.revoke(app_id, perm);
        self.grants.insert(app_id, perm.as_str(), state);
        assert(self@.once =~= old(self)@.once.remove((app_id@, perm_id(perm))));
        assert(self@ =~= with_grants(
            old(self)@,
            old(self)@.grants.insert((app_id@, perm_id(perm)), state),
            old(self)@.once.remove((app_id@, perm_id(perm))),
        ));
    }

    pub fn strict(&self) -> (r: bool)
        ensures
            r == self@.strict,
    {
        self.strict
    }

    pub fn set_strict(&mut self, strict: bool)
        ensures
            final(self)@ == (StoreView { strict, ..old(self)@ }),
    {
        self.strict = strict;
    }

    /// Grants a group until `until_unix` ("Allow for 1 hour"); any stored
    /// answer and one-time grant for the pair are dropped.
    pub fn grant_until(&mut self, app_id: &str, perm: Permission, until_unix: u64)
        ensures
            final(self)@ == timed(old(self)@, app_id@, perm, until_unix),
    {
        self.once.revoke(app_id, perm);
        let _ = self.grants.remove(app_id, perm.as_str());
        self.until.insert(app_id, perm.as_str(), until_unix);
        assert(self@.once =~= old(self)@.once.remove((app_id@, perm_id(perm))));
        assert(self@ =~= (StoreView {
            grants: old(self)@.grants.remove((app_id@, perm_id(perm))),
            once: old(self)@.once.remove((app_id@, perm_id(perm))),
            until: old(self)@.until.insert((app_id@, perm_id(perm)), until_unix),
            ..old(self)@
        }));
    }

    /// When a timed grant for this pair runs out, if one is live at `now`.
    pub fn timed_until(&self, app_id: &str, perm: Permission, now: u64) -> (r: Option<u64>)
        ensures
            match r {
                Some(t) => timed_live(self@, app_id@, perm, now) && t == self@.until[(
                    app_id@,
                    perm_id(perm),
                )],
                None => !timed_live(self@, app_id@, perm, now),
            },
    {
        match self.until.get(app_id, perm.as_str()) {
            Some(t) => if *t > now {
                Some(*t)
            } else {
                None
            },
            None => None,
        }
    }

    pub fn restrict(&mut self, app_id: &str, reason: &str, at: u64, refusals: u64)
        ensures
            final(self)@ == restricted_store(old(self)@, app_id@, RestrictionView { reason: reason@, at, refusals }),
    {
        let r = Restriction { reason: owned(reason), at, refusals };
        self.restricted.insert(owned(app_id), r);
        assert(self@.restricted =~= old(self)@.restricted.insert(
            app_id@,
            RestrictionView { reason: reason@, at, refusals },
        ));
    }

    /// Lets a restricted app run again (only ever from the user).
    pub fn unrestrict(&mut self, app_id: &str)
        ensures
            final(self)@ == unrestricted_store(old(self)@, app_id@),
    {
        let _ = self.restricted.remove(app_id);
        assert(self@.restricted =~= old(self)@.restricted.remove(app_id@));
    }

    /// Why this app is barred, if it is.
    pub fn restriction(&self, app_id: &str) -> (r: Option<&Restriction>)
        ensures
            match r {
                Some(x) => self@.restricted.contains_key(app_id@) && x@ == self@.restricted[app_id@],
                None => !self@.restricted.contains_key(app_id@),
            },
    {
        self.restricted.get(app_id)
    }

    pub fn is_restricted(&self, app_id: &str) -> (r: bool)
        ensures
            r == self@.restricted.contains_key(app_id@),
    {
        self.restricted.contains_key(app_id)
    }

    /// Every barred app, in increasing id order.
    pub fn restricted_apps(&self) -> (r: Vec<MiniAppId>)
        ensures
            increasing(texts(r@)),
            forall|a: Seq<char>| texts(r@).contains(a) <==> self@.restricted.contains_key(a),
    {
        self.restricted.facts();
        let r = self.restricted.keys();
        assert(texts(r@) =~= r@.map_values(|s: String| s@));
        r
    }

    /// How many times an app has used a group.
    pub fn use_count(&self, app_id: &str, perm: Permission) -> (n: u64)
        ensures
            n == use_count_of(self@, app_id@, perm),
    {
        match self.uses.get(app_id, perm.as_str()) {
            Some(n) => *n,
            None => 0,
        }
    }

    /// Grants a group for this session only (the prompt's "Allow Once").
    pub fn grant_once(&mut self, app_id: &str, perm: Permission)
        ensures
            final(self)@ == granted_once(old(self)@, app_id@, perm),
    {
        self.once.grant(app_id, perm);
        assert(self@.once =~= old(self)@.once.insert((app_id@, perm_id(perm))));
    }

    pub fn has_once(&self, app_id: &str, perm: Permission) -> (r: bool)
        ensures
            r == self@.once.contains((app_id@, perm_id(perm))),
    {
        self.once.holds(app_id, perm)
    }

    /// Drops every one-time grant of an app, reporting whether there was any.
    pub fn clear_once_for(&mut self, app_id: &str) -> (changed: bool)
        ensures
            final(self)@ == (StoreView {
                once: old(self)@.once.filter(|p: (Seq<char>, Seq<char>)| p.0 != app_id@),
                ..old(self)@
            }),
            changed == exists|p: Permission| old(self)@.once.contains((app_id@, perm_id(p))),
    {
        let changed = self.once.clear_app(app_id);
        assert(self@.once =~= old(self)@.once.filter(|p: (Seq<char>, Seq<char>)| p.0 != app_id@));
        changed
    }

    /// What a group nets out to for an app at time `now`.
    pub fn effective_at(&self, manifest: &MiniAppManifest, perm: Permission, now: u64) -> (e: Effective)
        ensures
            e == effective_at(self@, manifest@, perm, now),
    {
        if !manifest.declares(perm) {
            return Effective::Undeclared;
        }
        if self.is_restricted(manifest.id.as_str()) {
            return Effective::Denied;
        }
        let stored = self.state(manifest.id.as_str(), perm);
        if stored != GrantState::Denied {
            if self.has_once(manifest.id.as_str(), perm) {
                return Effective::Granted;
            }
            if self.timed_until(manifest.id.as_str(), perm, now).is_some() {
                return Effective::Granted;
            }
        }
        match stored {
            GrantState::Granted => Effective::Granted,
            GrantState::Denied => Effective::Denied,
            GrantState::Ask => {
                let normal = match perm.tier() {
                    Tier::Normal => true,
                    Tier::Runtime => false,
                };
                if normal && !self.strict {
                    Effective::Granted
                } else {
                    Effective::NeedsPrompt
                }
            },
        }
    }

    /// What a group nets out to for an app now, by the machine's clock.
    /// Only a timed grant depends on the time; with none for the pair the
    /// answer is the same at every time.
    pub fn effective(&self, manifest: &MiniAppManifest, perm: Permission) -> (e: Effective)
        ensures
            exists|now: u64| e == effective_at(self@, manifest@, perm, now),
            !self@.until.contains_key((manifest@.id, perm_id(perm))) ==> forall|now: u64|
                e == #[trigger] effective_at(self@, manifest@, perm, now),
    {
        let now = unix_now();
        self.effective_at(manifest, perm, now)
    }

    /// Whether the group is usable at `now` (prompt-pending counts as no).
    pub fn is_granted_at(&self, manifest: &MiniAppManifest, perm: Permission, now: u64) -> (r: bool)
        ensures
            r == (effective_at(self@, manifest@, perm, now) == Effective::Granted),
    {
        self.effective_at(manifest, perm, now) == Effective::Granted
    }

    /// Whether the group is usable now, by the machine's clock.
    pub fn is_granted(&self, manifest: &MiniAppManifest, perm: Permission) -> (r: bool)
        ensures
            exists|now: u64| r == (effective_at(self@, manifest@, perm, now) == Effective::Granted),
            !self@.until.contains_key((manifest@.id, perm_id(perm))) ==> forall|now: u64|
                r == (#[trigger] effective_at(self@, manifest@, perm, now) == Effective::Granted),
    {
        let now = unix_now();
        self.is_granted_at(manifest, perm, now)
    }

    /// The stored answer for one single capability; `Ask` follows the group.
    pub fn capability_state(&self, app_id: &str, cap_id: &str) -> (g: GrantState)
        ensures
            g == capability_state_of(self@, app_id@, cap_id@),
    {
        match self.cap_overrides.get(app_id, cap_id) {
            Some(g) => *g,
            None => GrantState::Ask,
        }
    }

    /// Stores an answer for one capability; `Ask` clears the override.
    pub fn set_capability(&mut self, app_id: &str, cap_id: &str, state: GrantState)
        ensures
            final(self)@ == capability_answered(old(self)@, app_id@, cap_id@, state),
    {
        if state == GrantState::Ask {
            let _ = self.cap_overrides.remove(app_id, cap_id);
        } else {
            self.cap_overrides.insert(app_id, cap_id, state);
        }
    }

    /// What one capability nets out to for an app at `now`.
    pub fn effective_capability_at(
        &self,
        manifest: &MiniAppManifest,
        cap: &Capability,
        now: u64,
    ) -> (e: Effective)
        ensures
            e == effective_capability_at(self@, manifest@, cap@, now),
    {
        if !cap.is_available() {
            return Effective::Undeclared;
        }
        if !manifest.declares_capability(cap) {
            return Effective::Undeclared;
        }
        if self.is_restricted(manifest.id.as_str()) {
            return Effective::Denied;
        }
        match cap.group {
            None => Effective::Granted,
            Some(group) => {
                let group_effective = self.effective_at(manifest, group, now);
                match self.capability_state(manifest.id.as_str(), cap.id) {
                    GrantState::Denied => Effective::Denied,
                    GrantState::Granted => match group_effective {
                        Effective::Denied => Effective::Denied,
                        Effective::Undeclared => Effective::Undeclared,
                        _ => Effective::Granted,
                    },
                    GrantState::Ask => group_effective,
                }
            },
        }
    }

    /// What one capability nets out to for an app now, by the machine's
    /// clock.
    pub fn effective_capability(&self, manifest: &MiniAppManifest, cap: &Capability) -> (e: Effective)
        ensures
            exists|now: u64| e == effective_capability_at(self@, manifest@, cap@, now),
    {
        let now = unix_now();
        self.effective_capability_at(manifest, cap, now)
    }
}


/// The (app, group id) pairs of a run of expiries.
pub open spec fn expiry_texts(v: Seq<(MiniAppId, Permission)>) -> Seq<(Seq<char>, Seq<char>)> {
    v.map_values(|e: (MiniAppId, Permission)| (e.0@, perm_id(e.1)))
}

/// The timed grants still running after `now`.
pub open spec fn unexpired(u: Map<(Seq<char>, Seq<char>), u64>, now: u64) -> Map<(Seq<char>, Seq<char>), u64> {
    u.restrict(Set::new(|k: (Seq<char>, Seq<char>)| u[k] > now))
}

/// The store after the timed grants that ran out at `now` are dropped.
pub open spec fn expired(s: StoreView, now: u64) -> StoreView {
    StoreView { until: unexpired(s.until, now), ..s }
}

/// `(app, id)` names a group that the manifest declares, for that app.
pub open spec fn declared_key(m: ManifestView, k: (Seq<char>, Seq<char>)) -> bool {
    k.0 == m.id && exists|p: Permission| declares(m, p) && perm_id(p) == k.1
}

/// The store after "Block all" for one app: every group it declares is
/// denied, and their one-time grants are gone.
pub open spec fn blocked(s: StoreView, m: ManifestView) -> StoreView {
    with_grants(
        s,
        Map::new(
            |k: (Seq<char>, Seq<char>)| s.grants.contains_key(k) || declared_key(m, k),
            |k: (Seq<char>, Seq<char>)| if declared_key(m, k) {
                GrantState::Denied
            } else {
                s.grants[k]
            },
        ),
        s.once.filter(|k: (Seq<char>, Seq<char>)| !declared_key(m, k)),
    )
}

/// The entries of one app dropped from a pair-keyed map.
pub open spec fn without_app<V>(m: Map<(Seq<char>, Seq<char>), V>, app: Seq<char>) -> Map<(Seq<char>, Seq<char>), V> {
    m.restrict(Set::new(|k: (Seq<char>, Seq<char>)| k.0 != app))
}

/// The store with one app forgotten: its answers, timed grants, use counts,
/// one-time grants and access records gone; restrictions and strict mode
/// untouched.
pub open spec fn forgotten(s: StoreView, app: Seq<char>) -> StoreView {
    StoreView {
        grants: without_app(s.grants, app),
        cap_overrides: without_app(s.cap_overrides, app),
        until: without_app(s.until, app),
        uses: without_app(s.uses, app),
        once: s.once.filter(|k: (Seq<char>, Seq<char>)| k.0 != app),
        access: s.access.filter(|r: AccessView| r.app_id != app),
        ..s
    }
}

/// Whether group `p`'s position is below `i` among those that the
/// manifest declares, for keys of the manifest's app.
spec fn declared_key_below(m: ManifestView, k: (Seq<char>, Seq<char>), i: int) -> bool {
    k.0 == m.id && exists|j: int| 0 <= j < i && declares(m, perm_at(j)) && perm_id(perm_at(j)) == k.1
}

spec fn blocked_below(s: StoreView, m: ManifestView, i: int) -> StoreView {
    with_grants(
        s,
        Map::new(
            |k: (Seq<char>, Seq<char>)| s.grants.contains_key(k) || declared_key_below(m, k, i),
            |k: (Seq<char>, Seq<char>)| if declared_key_below(m, k, i) {
                GrantState::Denied
            } else {
                s.grants[k]
            },
        ),
        s.once.filter(|k: (Seq<char>, Seq<char>)| !declared_key_below(m, k, i)),
    )
}

impl PermissionStore {
    /// Drops the timed grants that have run out at `now`, handing back the
    /// (app, group) pairs that expired, in increasing order; an expired id
    /// that names no group is dropped without being reported.
    pub fn expire_timed(&mut self, now: u64) -> (r: Vec<(MiniAppId, Permission)>)
        ensures
            final(self)@ == expired(old(self)@, now),
            pairs_increasing(expiry_texts(r@)),
            forall|a: Seq<char>, p: Permission|
                #[trigger] expiry_texts(r@).contains((a, perm_id(p))) <==> (old(self)@.until.contains_key(
                    (a, perm_id(p)),
                ) && old(self)@.until[(a, perm_id(p))] <= now),
    {
        let ghost old_until = self.until.view();
        let dropped = self.until.split_expired(now);
        assert(self.until.view() =~= unexpired(old_until, now));
        let ghost pt = pair_texts(dropped@);
        let mut out: Vec<(MiniAppId, Permission)> = Vec::new();
        let mut i: usize = 0;
        while i < dropped.len()
            invariant
                i <= dropped@.len(),
                pt == pair_texts(dropped@),
                pairs_increasing(pt),
                pairs_increasing(expiry_texts(out@)),
                forall|q: int| 0 <= q < out@.len() ==> exists|j: int| 0 <= j < i && #[trigger] expiry_texts(out@)[q] == pt[j],
                forall|a: Seq<char>, p: Permission|
                    #[trigger] expiry_texts(out@).contains((a, perm_id(p))) <==> exists|j: int|
                        0 <= j < i && pt[j] == (a, perm_id(p)),
            decreases dropped@.len() - i,
        {
            let ghost old_out = out@;
            let e = &dropped[i];
            assert(pt[i as int] == (e.0@, e.1@));
            match Permission::from_str(e.1.as_str()) {
                Some(p) => {
                    out.push((e.0.clone(), p));
                    assert(expiry_texts(out@) =~= expiry_texts(old_out).push((e.0@, perm_id(p))));
                    assert forall|q1: int, q2: int| 0 <= q1 < q2 < expiry_texts(out@).len() implies pair_lt(
                        #[trigger] expiry_texts(out@)[q1],
                        #[trigger] expiry_texts(out@)[q2],
                    ) by {
                        if q2 == old_out.len() {
                            let j = choose|j: int| 0 <= j < i && #[trigger] expiry_texts(old_out)[q1] == pt[j];
                            assert(pair_lt(pt[j], pt[i as int]));
                        } else {
                            assert(expiry_texts(out@)[q1] == expiry_texts(old_out)[q1]);
                            assert(expiry_texts(out@)[q2] == expiry_texts(old_out)[q2]);
                        }
                    }
                    assert forall|q: int| 0 <= q < out@.len() implies exists|j: int|
                        0 <= j < i + 1 && #[trigger] expiry_texts(out@)[q] == pt[j] by {
                        if q < old_out.len() {
                            assert(expiry_texts(out@)[q] == expiry_texts(old_out)[q]);
                            let j = choose|j: int| 0 <= j < i && #[trigger] expiry_texts(old_out)[q] == pt[j];
                            assert(expiry_texts(out@)[q] == pt[j]);
                        } else {
                            assert(expiry_texts(out@)[q] == pt[i as int]);
                        }
                    }
                    assert forall|a: Seq<char>, p2: Permission|
                        #[trigger] expiry_texts(out@).contains((a, perm_id(p2))) <==> exists|j: int|
                            0 <= j < i + 1 && pt[j] == (a, perm_id(p2)) by {
                        if expiry_texts(out@).contains((a, perm_id(p2))) {
                            let q = choose|q: int| 0 <= q < expiry_texts(out@).len() && expiry_texts(out@)[q] == (a, perm_id(p2));
                            if q < old_out.len() {
                                assert(expiry_texts(old_out)[q] == (a, perm_id(p2)));
                                assert(expiry_texts(old_out).contains((a, perm_id(p2))));
                            } else {
                                assert(pt[i as int] == (a, perm_id(p2)));
                            }
                        }
                        if exists|j: int| 0 <= j < i + 1 && pt[j] == (a, perm_id(p2)) {
                            let j = choose|j: int| 0 <= j < i + 1 && pt[j] == (a, perm_id(p2));
                            if j < i {
                                assert(expiry_texts(old_out).contains((a, perm_id(p2))));
                                let q = choose|q: int| 0 <= q < expiry_texts(old_out).len() && expiry_texts(old_out)[q] == (a, perm_id(p2));
                                assert(expiry_texts(out@)[q] == (a, perm_id(p2)));
                            } else {
                                assert(expiry_texts(out@)[old_out.len() as int] == (a, perm_id(p2)));
                            }
                        }
                    }
                },
                None => {
                    assert forall|q: int| 0 <= q < out@.len() implies exists|j: int|
                        0 <= j < i + 1 && #[trigger] expiry_texts(out@)[q] == pt[j] by {
                        let j = choose|j: int| 0 <= j < i && #[trigger] expiry_texts(out@)[q] == pt[j];
                    }
                    assert forall|a: Seq<char>, p2: Permission|
                        #[trigger] expiry_texts(out@).contains((a, perm_id(p2))) <==> exists|j: int|
                            0 <= j < i + 1 && pt[j] == (a, perm_id(p2)) by {
                        if exists|j: int| 0 <= j < i + 1 && pt[j] == (a, perm_id(p2)) {
                            let j = choose|j: int| 0 <= j < i + 1 && pt[j] == (a, perm_id(p2));
                            if j == i {
                                assert(perm_id(p2) == e.1@);
                            }
                        }
                    }
                },
            }
            i = i + 1;
        }
        assert forall|a: Seq<char>, p: Permission|
            #[trigger] expiry_texts(out@).contains((a, perm_id(p))) <==> (old_until.contains_key((a, perm_id(p)))
                && old_until[(a, perm_id(p))] <= now) by {
            if pt.contains((a, perm_id(p))) {
                let j = choose|j: int| 0 <= j < pt.len() && pt[j] == (a, perm_id(p));
            }
            if exists|j: int| 0 <= j < dropped@.len() && pt[j] == (a, perm_id(p)) {
                let j = choose|j: int| 0 <= j < dropped@.len() && pt[j] == (a, perm_id(p));
                assert(pt.contains((a, perm_id(p))));
            }
        }
        out
    }

    /// "Block all": denies every group the app declares.
    pub fn block_all(&mut self, manifest: &MiniAppManifest)
        ensures
            final(self)@ == blocked(old(self)@, manifest@),
    {
        let ghost s0 = self@;
        let mut i: usize = 0;
        assert(self@ =~= blocked_below(s0, manifest@, 0)) by {
            assert(self@.grants =~= blocked_below(s0, manifest@, 0).grants);
            assert(self@.once =~= blocked_below(s0, manifest@, 0).once);
        }
        while i < PERMISSION_COUNT
            invariant
                i <= PERMISSION_COUNT,
                self@ == blocked_below(s0, manifest@, i as int),
            decreases PERMISSION_COUNT - i,
        {
            let p = Permission::at(i);
            let ghost before = self@;
            let ghost key = (manifest@.id, perm_id(p));
            assert forall|k: (Seq<char>, Seq<char>)| #[trigger] declared_key_below(manifest@, k, i + 1) <==> (
                declared_key_below(manifest@, k, i as int) || (declares(manifest@, p) && k == key)) by {
                if declared_key_below(manifest@, k, i + 1) {
                    let j = choose|j: int| 0 <= j < i + 1 && declares(manifest@, perm_at(j)) && perm_id(perm_at(j)) == k.1;
                    if j < i {
                        assert(declared_key_below(manifest@, k, i as int));
                    }
                }
                if declares(manifest@, p) && k == key {
                    assert(0 <= i < i + 1 && declares(manifest@, perm_at(i as int)) && perm_id(perm_at(i as int)) == k.1);
                }
                if declared_key_below(manifest@, k, i as int) {
                    let j = choose|j: int| 0 <= j < i && declares(manifest@, perm_at(j)) && perm_id(perm_at(j)) == k.1;
                    assert(0 <= j < i + 1);
                }
            }
            if manifest.declares(p) {
                self.set(manifest.id.as_str(), p, GrantState::Denied);
                assert(self@.grants =~= blocked_below(s0, manifest@, i + 1).grants);
                assert(self@.once =~= blocked_below(s0, manifest@, i + 1).once);
            } else {
                assert(self@.grants =~= blocked_below(s0, manifest@, i + 1).grants);
                assert(self@.once =~= blocked_below(s0, manifest@, i + 1).once);
            }
            i = i + 1;
        }
        assert forall|k: (Seq<char>, Seq<char>)| #[trigger] declared_key_below(manifest@, k, PERMISSION_COUNT as int) <==> declared_key(manifest@, k) by {
            if declared_key(manifest@, k) {
                let p = choose|p: Permission| declares(manifest@, p) && perm_id(p) == k.1;
                lemma_perm_index(p);
                assert(declares(manifest@, perm_at(perm_index(p))) && perm_id(perm_at(perm_index(p))) == k.1);
            }
        }
        assert(self@.grants =~= blocked(s0, manifest@).grants);
        assert(self@.once =~= blocked(s0, manifest@).once);
    }

    /// Forgets every answer for every app. Restrictions, use counts, the
    /// access record and strict mode survive.
    pub fn reset_all(&mut self)
        ensures
            final(self)@ == reset(old(self)@),
    {
        self.grants.clear();
        self.cap_overrides.clear();
        self.until.clear();
        self.once.clear();
        assert(self@.once =~= Set::<(Seq<char>, Seq<char>)>::empty());
    }

    /// Forgets an app entirely (uninstall): a reinstall starts from `Ask`.
    pub fn remove_app(&mut self, app_id: &str)
        ensures
            final(self)@ == forgotten(old(self)@, app_id@),
    {
        let ghost s0 = self@;
        self.grants.remove_app(app_id);
        self.cap_overrides.remove_app(app_id);
        self.until.remove_app(app_id);
        self.uses.remove_app(app_id);
        let _ = self.clear_once_for(app_id);
        let mut kept: Vec<AccessRecord> = Vec::new();
        let mut i: usize = 0;
        while i < self.access.len()
            invariant
                i <= self.access@.len(),
                self.access@.map_values(|r: AccessRecord| r@) == s0.access,
                kept@.map_values(|r: AccessRecord| r@) == s0.access.take(i as int).filter(
                    |r: AccessView| r.app_id != app_id@,
                ),
            decreases self.access@.len() - i,
        {
            let ghost before = s0.access.take(i as int);
            let ghost next = s0.access.take(i + 1);
            let ghost old_kept = kept@;
            assert(next.drop_last() =~= before);
            assert(next.last() == self.access@[i as int]@);
            if !str_eq(self.access[i].app_id.as_str(), app_id) {
                kept.push(self.access[i].clone());
                assert(kept@.map_values(|r: AccessRecord| r@) =~= old_kept.map_values(|r: AccessRecord| r@).push(self.access@[i as int]@));
            }
            assert(kept@.map_values(|r: AccessRecord| r@) == next.filter(|r: AccessView| r.app_id != app_id@)) by {
                reveal(Seq::filter);
            }
            i = i + 1;
        }
        assert(s0.access.take(self.access@.len() as int) =~= s0.access);
        self.access = kept;
        assert(self@.grants =~= without_app(s0.grants, app_id@));
        assert(self@.cap_overrides =~= without_app(s0.cap_overrides, app_id@));
        assert(self@.until =~= without_app(s0.until, app_id@));
        assert(self@.uses =~= without_app(s0.uses, app_id@));
        assert(self@ =~= forgotten(s0, app_id@));
    }
}


/// `a - b`, or 0 when `b` is later.
pub open spec fn saturating_gap(a: u64, b: u64) -> int {
    if a >= b {
        a - b
    } else {
        0
    }
}

/// A use right after one of the same app and group, within a minute of it,
/// updates that record instead of adding one.
pub open spec fn collapses(acc: Seq<AccessView>, app: Seq<char>, p: Permission, at: u64) -> bool {
    acc.len() > 0 && acc.last().app_id == app && acc.last().perm == perm_id(p) && saturating_gap(
        at,
        acc.last().at,
    ) < 60
}

/// The access record after one more use: a burst collapses into its last
/// record; otherwise the use is appended and only the newest
/// [`MAX_ACCESS_RECORDS`] are kept.
pub open spec fn recorded(acc: Seq<AccessView>, app: Seq<char>, p: Permission, at: u64) -> Seq<AccessView> {
    if collapses(acc, app, p, at) {
        acc.update(acc.len() - 1, AccessView { at, ..acc.last() })
    } else {
        let pushed = acc.push(AccessView { app_id: app, perm: perm_id(p), at });
        if pushed.len() > MAX_ACCESS_RECORDS {
            pushed.subrange(pushed.len() - MAX_ACCESS_RECORDS, pushed.len() as int)
        } else {
            pushed
        }
    }
}

/// The store after an app used a group once more.
pub open spec fn used(s: StoreView, app: Seq<char>, p: Permission, at: u64) -> StoreView {
    StoreView {
        uses: s.uses.insert((app, perm_id(p)), (use_count_of(s, app, p) + 1) as u64),
        access: recorded(s.access, app, p, at),
        ..s
    }
}

/// When the newest record of an app's use of a group was made, if any.
pub open spec fn last_use(acc: Seq<AccessView>, app: Seq<char>, pid: Seq<char>) -> Option<u64>
    decreases acc.len(),
{
    if acc.len() == 0 {
        None
    } else if acc.last().app_id == app && acc.last().perm == pid {
        Some(acc.last().at)
    } else {
        last_use(acc.drop_last(), app, pid)
    }
}

/// The newest `n` records, newest first.
pub open spec fn newest_first(acc: Seq<AccessView>, n: int) -> Seq<AccessView> {
    Seq::new(
        if n < acc.len() { n as nat } else { acc.len() },
        |i: int| acc[acc.len() - 1 - i],
    )
}

/// The views of a run of access records.
pub open spec fn access_views(v: Seq<AccessRecord>) -> Seq<AccessView> {
    v.map_values(|r: AccessRecord| r@)
}

/// The group ids of a run of (group, answer) rows.
pub open spec fn row_ids(v: Seq<(Permission, GrantState)>) -> Seq<Seq<char>> {
    v.map_values(|e: (Permission, GrantState)| perm_id(e.0))
}

impl PermissionStore {
    /// Records that an app exercised a group: its use count goes up by one
    /// and the access record takes the use (see [`recorded`]).
    pub fn record_access(&mut self, app_id: &str, perm: Permission, at: u64)
        requires
            use_count_of(old(self)@, app_id@, perm) < u64::MAX,
        ensures
            final(self)@ == used(old(self)@, app_id@, perm, at),
    {
        let ghost s0 = self@;
        let n = self.use_count(app_id, perm);
        self.uses.insert(app_id, perm.as_str(), n + 1);
        let len = self.access.len();
        let mut collapse = false;
        if len > 0 {
            let last = &self.access[len - 1];
            let gap: u64 = if at >= last.at {
                at - last.at
            } else {
                0
            };
            collapse = str_eq(last.app_id.as_str(), app_id) && str_eq(last.perm.as_str(), perm.as_str())
                && gap < 60;
            assert(s0.access.last() == self.access@[len - 1]@);
        }
        assert(collapse == collapses(s0.access, app_id@, perm, at));
        if collapse {
            let mut last = self.access.pop().unwrap();
            last.at = at;
            self.access.push(last);
            assert(access_views(self.access@) =~= recorded(s0.access, app_id@, perm, at));
        } else {
            self.access.push(AccessRecord { app_id: owned(app_id), perm: owned(perm.as_str()), at });
            assert(access_views(self.access@) =~= s0.access.push(
                AccessView { app_id: app_id@, perm: perm_id(perm), at },
            ));
            if self.access.len() > MAX_ACCESS_RECORDS {
                let cut = self.access.len() - MAX_ACCESS_RECORDS;
                let tail = self.access.split_off(cut);
                self.access = tail;
            }
            assert(access_views(self.access@) =~= recorded(s0.access, app_id@, perm, at));
        }
        assert(self@ =~= (StoreView {
            uses: s0.uses.insert((app_id@, perm_id(perm)), (use_count_of(s0, app_id@, perm) + 1) as u64),
            access: recorded(s0.access, app_id@, perm, at),
            ..s0
        }));
    }

    /// When an app last used a group, if the access record still holds it.
    pub fn last_access(&self, app_id: &str, perm: Permission) -> (r: Option<u64>)
        ensures
            r == last_use(self@.access, app_id@, perm_id(perm)),
    {
        let ghost acc = self@.access;
        let mut i: usize = self.access.len();
        assert(acc.take(i as int) =~= acc);
        while i > 0
            invariant
                i <= acc.len(),
                acc == access_views(self.access@),
                last_use(acc, app_id@, perm_id(perm)) == last_use(acc.take(i as int), app_id@, perm_id(perm)),
            decreases i,
        {
            let r = &self.access[i - 1];
            assert(acc.take(i as int).last() == r@);
            assert(acc.take(i as int).drop_last() =~= acc.take(i - 1));
            if str_eq(r.app_id.as_str(), app_id) && str_eq(r.perm.as_str(), perm.as_str()) {
                return Some(r.at);
            }
            i = i - 1;
        }
        assert(acc.take(0) =~= Seq::<AccessView>::empty());
        None
    }

    /// The newest `limit` uses, newest first.
    pub fn recent_access(&self, limit: usize) -> (r: Vec<AccessRecord>)
        ensures
            access_views(r@) == newest_first(self@.access, limit as int),
    {
        let ghost acc = self@.access;
        let len = self.access.len();
        let n = if limit < len {
            limit
        } else {
            len
        };
        let mut out: Vec<AccessRecord> = Vec::new();
        let mut i: usize = 0;
        while i < n
            invariant
                i <= n,
                n <= len,
                len == acc.len(),
                acc == access_views(self.access@),
                access_views(out@) == newest_first(acc, limit as int).take(i as int),
                newest_first(acc, limit as int).len() == n,
            decreases n - i,
        {
            let ghost old_out = out@;
            let rec = self.access[len - 1 - i].clone();
            assert(rec@ == acc[len - 1 - i]);
            out.push(rec);
            assert(access_views(out@) =~= access_views(old_out).push(rec@));
            assert(access_views(out@) =~= newest_first(acc, limit as int).take(i + 1));
            i = i + 1;
        }
        assert(newest_first(acc, limit as int).take(n as int) =~= newest_first(acc, limit as int));
        out
    }

    /// Declared groups with their stored answers, in declaration order;
    /// unknown ids are skipped and repeats collapse.
    pub fn declared_states(&self, manifest: &MiniAppManifest) -> (r: Vec<(Permission, GrantState)>)
        ensures
            row_ids(r@) == dedup_filter(manifest@.permissions, |s: Seq<char>| is_perm_id(s)),
            forall|i: int| 0 <= i < r@.len() ==> (#[trigger] r@[i]).1 == state_of(self@, manifest@.id, r@[i].0),
    {
        let ghost perms = manifest@.permissions;
        let mut seen: Vec<(Permission, GrantState)> = Vec::new();
        let mut i: usize = 0;
        while i < manifest.permissions.len()
            invariant
                i <= perms.len(),
                perms == manifest@.permissions,
                row_ids(seen@) == dedup_filter(perms.take(i as int), |s: Seq<char>| is_perm_id(s)),
                forall|q: int| 0 <= q < seen@.len() ==> (#[trigger] seen@[q]).1 == state_of(self@, manifest@.id, seen@[q].0),
            decreases perms.len() - i,
        {
            let ghost next = perms.take(i + 1);
            assert(next.drop_last() =~= perms.take(i as int));
            assert(next.last() == manifest.permissions@[i as int]@);
            let ghost old_seen = seen@;
            match Permission::from_str(manifest.permissions[i].as_str()) {
                None => {
                    assert(!is_perm_id(next.last()));
                },
                Some(perm) => {
                    let mut dup = false;
                    let mut j: usize = 0;
                    while j < seen.len()
                        invariant
                            j <= seen@.len(),
                            seen@ == old_seen,
                            dup == exists|q: int| 0 <= q < j && seen@[q].0 == perm,
                        decreases seen@.len() - j,
                    {
                        if seen[j].0 == perm {
                            dup = true;
                        }
                        j = j + 1;
                    }
                    assert(dup == row_ids(old_seen).contains(perm_id(perm))) by {
                        if row_ids(old_seen).contains(perm_id(perm)) {
                            let q = choose|q: int| 0 <= q < row_ids(old_seen).len() && row_ids(old_seen)[q] == perm_id(perm);
                            if old_seen[q].0 != perm {
                                lemma_perm_ids_distinct(old_seen[q].0, perm);
                            }
                        }
                        if dup {
                            let q = choose|q: int| 0 <= q < seen@.len() && seen@[q].0 == perm;
                            assert(row_ids(old_seen)[q] == perm_id(perm));
                        }
                    }
                    if !dup {
                        let st = self.state(manifest.id.as_str(), perm);
                        seen.push((perm, st));
                        assert(row_ids(seen@) =~= row_ids(old_seen).push(perm_id(perm)));
                    }
                },
            }
            i = i + 1;
        }
        assert(perms.take(perms.len() as int) =~= perms);
        seen
    }
}


impl PermissionStore {
    /// The names usable at `now`: every granted group id, then every
    /// granted gated capability id.
    pub fn granted_caps_at(&self, manifest: &MiniAppManifest, now: u64) -> (r: Vec<String>)
        ensures
            texts(r@) == granted_caps_at(self@, manifest@, now),
    {
        let ghost gp = group_granted(self@, manifest@, now);
        let ghost gc = capability_granted(self@, manifest@, now);
        let mut out: Vec<String> = Vec::new();
        let mut i: usize = 0;
        while i < PERMISSION_COUNT
            invariant
                i <= PERMISSION_COUNT,
                gp == group_granted(self@, manifest@, now),
                texts(out@) == perm_ids(all_perms().take(i as int).filter(gp)),
            decreases PERMISSION_COUNT - i,
        {
            let p = Permission::at(i);
            let ghost before = all_perms().take(i as int);
            let ghost next = all_perms().take(i + 1);
            let ghost old_out = out@;
            assert(next.drop_last() =~= before);
            assert(next.last() == p);
            if self.effective_at(manifest, p, now) == Effective::Granted {
                out.push(owned(p.as_str()));
                assert(texts(out@) =~= texts(old_out).push(perm_id(p)));
                assert(next.filter(gp) == before.filter(gp).push(p)) by {
                    reveal(Seq::filter);
                }
                assert(perm_ids(before.filter(gp).push(p)) =~= perm_ids(before.filter(gp)).push(perm_id(p)));
            } else {
                assert(next.filter(gp) == before.filter(gp)) by {
                    reveal(Seq::filter);
                }
            }
            i = i + 1;
        }
        assert(all_perms().take(PERMISSION_COUNT as int) =~= all_perms());
        let ghost groups = texts(out@);
        let mut j: usize = 0;
        while j < CATALOG_LEN
            invariant
                j <= CATALOG_LEN,
                gc == capability_granted(self@, manifest@, now),
                groups == granted_group_ids(self@, manifest@, now),
                texts(out@) == groups + cap_ids(catalog().take(j as int).filter(gc)),
            decreases CATALOG_LEN - j,
        {
            let c = catalog_entry(j);
            let ghost before = catalog().take(j as int);
            let ghost next = catalog().take(j + 1);
            let ghost old_out = out@;
            assert(next.drop_last() =~= before);
            assert(next.last() == c@);
            let granted = match c.group {
                Some(_) => self.effective_capability_at(manifest, &c, now) == Effective::Granted,
                None => false,
            };
            if granted {
                out.push(owned(c.id));
                assert(texts(out@) =~= texts(old_out).push(c@.id));
                assert(next.filter(gc) == before.filter(gc).push(c@)) by {
                    reveal(Seq::filter);
                }
                assert(cap_ids(before.filter(gc).push(c@)) =~= cap_ids(before.filter(gc)).push(c@.id));
                assert(texts(out@) =~= groups + cap_ids(next.filter(gc)));
            } else {
                assert(next.filter(gc) == before.filter(gc)) by {
                    reveal(Seq::filter);
                }
            }
            j = j + 1;
        }
        assert(catalog().take(CATALOG_LEN as int) =~= catalog());
        out
    }

    /// The names usable now, by the machine's clock (what the app's
    /// `host.capabilities()` reports).
    pub fn granted_caps(&self, manifest: &MiniAppManifest) -> (r: Vec<String>)
        ensures
            exists|now: u64| texts(r@) == granted_caps_at(self@, manifest@, now),
    {
        let now = unix_now();
        self.granted_caps_at(manifest, now)
    }
}


/// One row of the per-group view: an app and what the group nets out to.
pub open spec fn rows_view(v: Seq<(MiniAppManifest, Effective)>) -> Seq<(ManifestView, Effective)> {
    v.map_values(|e: (MiniAppManifest, Effective)| (e.0@, e.1))
}

/// Allowed first, then still asking, then blocked.
pub open spec fn effective_rank(e: Effective) -> int {
    match e {
        Effective::Granted => 0,
        Effective::NeedsPrompt => 1,
        Effective::Denied => 2,
        Effective::Undeclared => 3,
    }
}

/// Row `a` sorts strictly before row `b`: by rank, then by lowercased name.
pub open spec fn row_before(a: (ManifestView, Effective), b: (ManifestView, Effective)) -> bool {
    effective_rank(a.1) < effective_rank(b.1) || (effective_rank(a.1) == effective_rank(b.1)
        && text_lt(lowercase(a.0.name), lowercase(b.0.name)))
}

/// Rows that neither sorts before the other.
pub open spec fn row_ties(a: (ManifestView, Effective), b: (ManifestView, Effective)) -> bool {
    effective_rank(a.1) == effective_rank(b.1) && lowercase(a.0.name) == lowercase(b.0.name)
}

/// `out` is `d` reordered by `ix` (row `k` of `out` is row `ix[k]` of `d`,
/// each taken once) so that rows come in order and tied rows keep their
/// order in `d`.
pub open spec fn sorted_by_index(
    out: Seq<(ManifestView, Effective)>,
    d: Seq<(ManifestView, Effective)>,
    ix: Seq<int>,
) -> bool {
    &&& ix.len() == out.len()
    &&& out.len() == d.len()
    &&& forall|k: int| 0 <= k < ix.len() ==> 0 <= #[trigger] ix[k] < d.len() && out[k] == d[ix[k]]
    &&& forall|k: int, l: int| 0 <= k < l < ix.len() ==> #[trigger] ix[k] != #[trigger] ix[l]
    &&& forall|k: int, l: int|
        0 <= k < l < out.len() ==> row_before(#[trigger] out[k], #[trigger] out[l]) || (row_ties(
            out[k],
            out[l],
        ) && ix[k] < ix[l])
}

/// `out` is `d` stably sorted by [`row_before`].
pub open spec fn stably_sorted(out: Seq<(ManifestView, Effective)>, d: Seq<(ManifestView, Effective)>) -> bool {
    exists|ix: Seq<int>| sorted_by_index(out, d, ix)
}

/// Whether an app declares a group.
pub open spec fn declares_pred(p: Permission) -> spec_fn(ManifestView) -> bool {
    |m: ManifestView| declares(m, p)
}

/// Every app of `reg` that declares `p`, in registry order, with what `p`
/// nets out to for it at `now`.
pub open spec fn declaring_rows(s: StoreView, reg: Seq<ManifestView>, p: Permission, now: u64) -> Seq<(ManifestView, Effective)> {
    reg.filter(declares_pred(p)).map_values(|m: ManifestView| (m, effective_at(s, m, p, now)))
}

proof fn lemma_row_total(a: (ManifestView, Effective), b: (ManifestView, Effective))
    ensures
        !row_before(a, b) ==> row_before(b, a) || row_ties(a, b),
{
    lemma_text_lt_total(lowercase(a.0.name), lowercase(b.0.name));
}

proof fn lemma_row_transitive(a: (ManifestView, Effective), b: (ManifestView, Effective), c: (ManifestView, Effective))
    requires
        row_before(a, b),
        row_before(b, c) || row_ties(b, c),
    ensures
        row_before(a, c),
{
    if effective_rank(a.1) == effective_rank(b.1) && effective_rank(b.1) == effective_rank(c.1)
        && row_before(b, c) {
        lemma_text_lt_transitive(lowercase(a.0.name), lowercase(b.0.name), lowercase(c.0.name));
    }
}

fn effective_rank_of(e: Effective) -> (r: u8)
    ensures
        r == effective_rank(e),
{
    match e {
        Effective::Granted => 0,
        Effective::NeedsPrompt => 1,
        Effective::Denied => 2,
        Effective::Undeclared => 3,
    }
}

fn row_before_exec(a: &(MiniAppManifest, Effective), b: &(MiniAppManifest, Effective)) -> (r: bool)
    ensures
        r == row_before((a.0@, a.1), (b.0@, b.1)),
{
    let ra = effective_rank_of(a.1);
    let rb = effective_rank_of(b.1);
    if ra != rb {
        return ra < rb;
    }
    let na = to_lowercase(a.0.name.as_str());
    let nb = to_lowercase(b.0.name.as_str());
    match compare_text(na.as_str(), nb.as_str()) {
        TextOrder::Less => true,
        _ => false,
    }
}

/// Insertion sort: rows in order, ties in their first-come order.
fn sort_rows(d: &Vec<(MiniAppManifest, Effective)>) -> (out: Vec<(MiniAppManifest, Effective)>)
    ensures
        stably_sorted(rows_view(out@), rows_view(d@)),
{
    let ghost dv = rows_view(d@);
    let mut out: Vec<(MiniAppManifest, Effective)> = Vec::new();
    let ghost mut ix: Seq<int> = Seq::empty();
    let mut i: usize = 0;
    while i < d.len()
        invariant
            i <= d@.len(),
            dv == rows_view(d@),
            ix.len() == out@.len(),
            out@.len() == i,
            forall|k: int| 0 <= k < ix.len() ==> 0 <= #[trigger] ix[k] < i && rows_view(out@)[k] == dv[ix[k]],
            forall|k: int, l: int| 0 <= k < l < ix.len() ==> #[trigger] ix[k] != #[trigger] ix[l],
            forall|k: int, l: int|
                0 <= k < l < out@.len() ==> row_before(#[trigger] rows_view(out@)[k], #[trigger] rows_view(out@)[l])
                    || (row_ties(rows_view(out@)[k], rows_view(out@)[l]) && ix[k] < ix[l]),
        decreases d@.len() - i,
    {
        let x = (d[i].0.clone(), d[i].1);
        let ghost xv = (x.0@, x.1);
        assert(xv == dv[i as int]);
        let ghost ov = rows_view(out@);
        let mut pos: usize = 0;
        while pos < out.len()
            invariant
                pos <= out@.len(),
                ov == rows_view(out@),
                xv == (x.0@, x.1),
                forall|k: int| 0 <= k < pos ==> !row_before(xv, #[trigger] ov[k]),
            ensures
                pos <= out@.len(),
                forall|k: int| 0 <= k < pos ==> !row_before(xv, #[trigger] ov[k]),
                pos < out@.len() ==> row_before(xv, ov[pos as int]),
            decreases out@.len() - pos,
        {
            if row_before_exec(&x, &out[pos]) {
                assert(ov[pos as int] == (out@[pos as int].0@, out@[pos as int].1));
                break;
            }
            pos = pos + 1;
        }
        let ghost old_ix = ix;
        out.insert(pos, x);
        proof {
            ix = old_ix.insert(pos as int, i as int);
        }
        let ghost nv = rows_view(out@);
        assert(nv =~= ov.insert(pos as int, xv));
        assert forall|k: int| 0 <= k < ix.len() implies 0 <= #[trigger] ix[k] < i + 1 && nv[k] == dv[ix[k]] by {
            if k < pos {
                assert(ix[k] == old_ix[k]);
            } else if k > pos {
                assert(ix[k] == old_ix[k - 1]);
            }
        }
        assert forall|k: int, l: int| 0 <= k < l < ix.len() implies #[trigger] ix[k] != #[trigger] ix[l] by {
            if k < pos && l > pos {
                assert(ix[l] == old_ix[l - 1]);
            } else if k > pos {
                assert(ix[k] == old_ix[k - 1] && ix[l] == old_ix[l - 1]);
            } else if l < pos {
            } else if k == pos {
                assert(ix[l] == old_ix[l - 1]);
            } else {
                assert(ix[k] == old_ix[k]);
            }
        }
        assert forall|k: int, l: int|
            0 <= k < l < nv.len() implies row_before(#[trigger] nv[k], #[trigger] nv[l]) || (row_ties(
                nv[k],
                nv[l],
            ) && ix[k] < ix[l]) by {
            if l < pos {
                assert(nv[k] == ov[k] && nv[l] == ov[l]);
            } else if l == pos {
                assert(nv[k] == ov[k]);
                lemma_row_total(xv, ov[k]);
                assert(ix[k] == old_ix[k]);
            } else if k > pos {
                assert(nv[k] == ov[k - 1] && nv[l] == ov[l - 1]);
                assert(ix[k] == old_ix[k - 1] && ix[l] == old_ix[l - 1]);
            } else if k == pos {
                assert(nv[l] == ov[l - 1]);
                if l - 1 > pos {
                    assert(row_before(ov[pos as int], ov[l - 1]) || row_ties(ov[pos as int], ov[l - 1]));
                    lemma_row_transitive(xv, ov[pos as int], ov[l - 1]);
                }
            } else {
                assert(nv[k] == ov[k] && nv[l] == ov[l - 1]);
                assert(ix[k] == old_ix[k] && ix[l] == old_ix[l - 1]);
            }
        }
        i = i + 1;
    }
    assert(sorted_by_index(rows_view(out@), dv, ix));
    out
}

impl PermissionStore {
    /// Every app that declares `perm`, with what it nets out to at `now`:
    /// allowed first, then the ones still asking, then blocked; by
    /// lowercased name inside each group, ties in registry order.
    pub fn apps_declaring_at(&self, registry: &AppRegistry, perm: Permission, now: u64) -> (r: Vec<(MiniAppManifest, Effective)>)
        ensures
            stably_sorted(rows_view(r@), declaring_rows(self@, registry.view(), perm, now)),
    {
        let apps = registry.iter();
        let ghost reg = registry.view();
        let ghost pred = declares_pred(perm);
        let mut d: Vec<(MiniAppManifest, Effective)> = Vec::new();
        let mut i: usize = 0;
        while i < apps.len()
            invariant
                i <= apps@.len(),
                apps@.map_values(|m: MiniAppManifest| m@) == reg,
                pred == declares_pred(perm),
                rows_view(d@) == declaring_rows(self@, reg.take(i as int), perm, now),
            decreases apps@.len() - i,
        {
            let ghost before = reg.take(i as int);
            let ghost next = reg.take(i + 1);
            let ghost old_d = d@;
            assert(next.drop_last() =~= before);
            assert(next.last() == apps@[i as int]@);
            if apps[i].declares(perm) {
                let e = self.effective_at(&apps[i], perm, now);
                d.push((apps[i].clone(), e));
                assert(next.filter(pred) == before.filter(pred).push(apps@[i as int]@)) by {
                    reveal(Seq::filter);
                }
                assert(rows_view(d@) =~= rows_view(old_d).push((apps@[i as int]@, e)));
                assert(declaring_rows(self@, next, perm, now) =~= declaring_rows(self@, before, perm, now).push(
                    (apps@[i as int]@, e),
                ));
            } else {
                assert(next.filter(pred) == before.filter(pred)) by {
                    reveal(Seq::filter);
                }
            }
            i = i + 1;
        }
        assert(reg.take(apps@.len() as int) =~= reg);
        sort_rows(&d)
    }

    /// [`PermissionStore::apps_declaring_at`] now, by the machine's clock.
    pub fn apps_declaring(&self, registry: &AppRegistry, perm: Permission) -> (r: Vec<(MiniAppManifest, Effective)>)
        ensures
            exists|now: u64| stably_sorted(rows_view(r@), declaring_rows(self@, registry.view(), perm, now)),
    {
        let now = unix_now();
        self.apps_declaring_at(registry, perm, now)
    }
}


/// Whether an app declares a group that is granted to it at `now`.
pub open spec fn granted_declared_pred(s: StoreView, p: Permission, now: u64) -> spec_fn(ManifestView) -> bool {
    |m: ManifestView| declares(m, p) && effective_at(s, m, p, now) == Effective::Granted
}

/// App id -> the names granted to it at `now`, for every app of `reg` (a
/// later app with the same id wins).
pub open spec fn snapshot_of(s: StoreView, reg: Seq<ManifestView>, now: u64) -> Map<Seq<char>, Seq<Seq<char>>>
    decreases reg.len(),
{
    if reg.len() == 0 {
        Map::empty()
    } else {
        snapshot_of(s, reg.drop_last(), now).insert(reg.last().id, granted_caps_at(s, reg.last(), now))
    }
}

/// The name lists a snapshot holds.
pub open spec fn snapshot_view(m: Map<Seq<char>, Vec<String>>) -> Map<Seq<char>, Seq<Seq<char>>> {
    m.map_values(|v: Vec<String>| texts(v@))
}

impl PermissionStore {
    /// How many apps declare `perm` and can use it at `now`, and how many
    /// declare it: `(allowed, declaring)`.
    pub fn permission_tally_at(&self, registry: &AppRegistry, perm: Permission, now: u64) -> (r: (usize, usize))
        ensures
            r.0 == registry.view().filter(granted_declared_pred(self@, perm, now)).len(),
            r.1 == registry.view().filter(declares_pred(perm)).len(),
    {
        let apps = registry.iter();
        let ghost reg = registry.view();
        let ghost pa = granted_declared_pred(self@, perm, now);
        let ghost pd = declares_pred(perm);
        let mut allowed: usize = 0;
        let mut declaring: usize = 0;
        let mut i: usize = 0;
        while i < apps.len()
            invariant
                i <= apps@.len(),
                apps@.map_values(|m: MiniAppManifest| m@) == reg,
                pa == granted_declared_pred(self@, perm, now),
                pd == declares_pred(perm),
                allowed == reg.take(i as int).filter(pa).len(),
                declaring == reg.take(i as int).filter(pd).len(),
                allowed <= i,
                declaring <= i,
            decreases apps@.len() - i,
        {
            let ghost before = reg.take(i as int);
            let ghost next = reg.take(i + 1);
            assert(next.drop_last() =~= before);
            assert(next.last() == apps@[i as int]@);
            let decl = apps[i].declares(perm);
            let granted = decl && self.effective_at(&apps[i], perm, now) == Effective::Granted;
            assert(next.filter(pd).len() == before.filter(pd).len() + if decl { 1int } else { 0int }) by {
                reveal(Seq::filter);
            }
            assert(next.filter(pa).len() == before.filter(pa).len() + if granted { 1int } else { 0int }) by {
                reveal(Seq::filter);
            }
            if decl {
                declaring = declaring + 1;
            }
            if granted {
                allowed = allowed + 1;
            }
            i = i + 1;
        }
        assert(reg.take(apps@.len() as int) =~= reg);
        (allowed, declaring)
    }

    /// [`PermissionStore::permission_tally_at`] now, by the machine's clock.
    pub fn permission_tally(&self, registry: &AppRegistry, perm: Permission) -> (r: (usize, usize))
        ensures
            exists|now: u64|
                r.0 == registry.view().filter(granted_declared_pred(self@, perm, now)).len() && r.1
                    == registry.view().filter(declares_pred(perm)).len(),
    {
        let now = unix_now();
        self.permission_tally_at(registry, perm, now)
    }

    /// App id -> the names granted to it at `now`, for every installed app.
    pub fn snapshot_at(&self, registry: &AppRegistry, now: u64) -> (r: StrMap<Vec<String>>)
        ensures
            snapshot_view(r.view()) == snapshot_of(self@, registry.view(), now),
    {
        let apps = registry.iter();
        let ghost reg = registry.view();
        let mut out: StrMap<Vec<String>> = StrMap::new();
        let mut i: usize = 0;
        assert(snapshot_view(out.view()) =~= snapshot_of(self@, reg.take(0), now));
        while i < apps.len()
            invariant
                i <= apps@.len(),
                apps@.map_values(|m: MiniAppManifest| m@) == reg,
                snapshot_view(out.view()) == snapshot_of(self@, reg.take(i as int), now),
            decreases apps@.len() - i,
        {
            let ghost next = reg.take(i + 1);
            assert(next.drop_last() =~= reg.take(i as int));
            assert(next.last() == apps@[i as int]@);
            let caps = self.granted_caps_at(&apps[i], now);
            let ghost old_view = out.view();
            out.insert(apps[i].id.clone(), caps);
            assert(snapshot_view(out.view()) =~= snapshot_view(old_view).insert(apps@[i as int]@.id, texts(caps@)));
            i = i + 1;
        }
        assert(reg.take(apps@.len() as int) =~= reg);
        out
    }

    /// [`PermissionStore::snapshot_at`] now, by the machine's clock.
    pub fn snapshot(&self, registry: &AppRegistry) -> (r: StrMap<Vec<String>>)
        ensures
            exists|now: u64| snapshot_view(r.view()) == snapshot_of(self@, registry.view(), now),
    {
        let now = unix_now();
        self.snapshot_at(registry, now)
    }
}

/// The names a snapshot grants an app; none for an app it does not know
/// (deny by default, also before anything was published).
pub fn snapshot_grants_in(snapshot: &StrMap<Vec<String>>, app_id: &str) -> (r: Vec<String>)
    ensures
        texts(r@) == if snapshot_view(snapshot.view()).contains_key(app_id@) {
            snapshot_view(snapshot.view())[app_id@]
        } else {
            Seq::<Seq<char>>::empty()
        },
{
    match snapshot.get(app_id) {
        Some(v) => copy_strings(v),
        None => {
            let v: Vec<String> = Vec::new();
            assert(texts(v@) =~= Seq::<Seq<char>>::empty());
            v
        },
    }
}

impl Default for PermissionStore {
    /// The empty store of [`PermissionStore::new`].
    fn default() -> (s: PermissionStore)
        ensures
            s@.grants == Map::<(Seq<char>, Seq<char>), GrantState>::empty(),
            s@.cap_overrides == Map::<(Seq<char>, Seq<char>), GrantState>::empty(),
            s@.access == Seq::<AccessView>::empty(),
            s@.once == Set::<(Seq<char>, Seq<char>)>::empty(),
            s@.until == Map::<(Seq<char>, Seq<char>), u64>::empty(),
            s@.uses == Map::<(Seq<char>, Seq<char>), u64>::empty(),
            !s@.strict,
            s@.restricted == Map::<Seq<char>, RestrictionView>::empty(),
    {
        PermissionStore::new()
    }
}


/// What a store keeps across a restart: everything but the one-time grants,
/// which are for this session only and so never written down.
#[derive(Debug)]
pub struct StoreParts {
    pub grants: Vec<(String, String, GrantState)>,
    pub cap_overrides: Vec<(String, String, GrantState)>,
    pub access: Vec<AccessRecord>,
    pub until: Vec<(String, String, u64)>,
    pub uses: Vec<(String, String, u64)>,
    pub strict: bool,
    pub restricted: Vec<(String, Restriction)>,
}

/// The map a run of (app, restriction) entries gives, later entries winning.
pub open spec fn restrictions_map(v: Seq<(String, Restriction)>) -> Map<Seq<char>, RestrictionView>
    decreases v.len(),
{
    if v.len() == 0 {
        Map::empty()
    } else {
        restrictions_map(v.drop_last()).insert(v.last().0@, v.last().1@)
    }
}

/// The store that a set of parts describes; no one-time grants.
pub open spec fn store_of_parts(p: StoreParts) -> StoreView {
    StoreView {
        grants: triples_map(triple_views(p.grants@)),
        cap_overrides: triples_map(triple_views(p.cap_overrides@)),
        access: access_views(p.access@),
        once: Set::empty(),
        until: triples_map(triple_views(p.until@)),
        uses: triples_map(triple_views(p.uses@)),
        strict: p.strict,
        restricted: restrictions_map(p.restricted@),
    }
}

impl PermissionStore {
    /// The parts to write down: they describe this store without its
    /// one-time grants.
    pub fn to_parts(&self) -> (p: StoreParts)
        ensures
            store_of_parts(p) == (StoreView { once: Set::empty(), ..self@ }),
    {
        let mut access: Vec<AccessRecord> = Vec::new();
        let mut i: usize = 0;
        while i < self.access.len()
            invariant
                i <= self.access@.len(),
                access_views(access@) == access_views(self.access@).take(i as int),
            decreases self.access@.len() - i,
        {
            let ghost before = access@;
            access.push(self.access[i].clone());
            assert(access_views(access@) =~= access_views(before).push(self.access@[i as int]@));
            i = i + 1;
            assert(access_views(access@) =~= access_views(self.access@).take(i as int));
        }
        assert(access_views(self.access@).take(self.access@.len() as int) =~= access_views(self.access@));
        let mut restricted: Vec<(String, Restriction)> = Vec::new();
        let n = self.restricted.count();
        let mut j: usize = 0;
        self.restricted.facts();
        let ghost rv = self.restricted.view().map_values(|r: Restriction| r@);
        assert(restrictions_map(restricted@) =~= rv.restrict(
            Set::new(|k: Seq<char>| self.restricted.key_list().take(0).contains(k)),
        ));
        while j < n
            invariant
                j <= n,
                n == self.restricted.key_list().len(),
                rv == self.restricted.view().map_values(|r: Restriction| r@),
                forall|x: Seq<char>| self.restricted.key_list().contains(x) <==> self.restricted.view().contains_key(x),
                restrictions_map(restricted@) == rv.restrict(
                    Set::new(|k: Seq<char>| self.restricted.key_list().take(j as int).contains(k)),
                ),
            decreases n - j,
        {
            let k = self.restricted.key_at(j);
            let r = self.restricted.value_at(j).clone();
            let ghost before = restricted@;
            restricted.push((k.clone(), r));
            assert(restricted@.drop_last() =~= before);
            let ghost ks1 = self.restricted.key_list().take(j + 1);
            assert forall|x: Seq<char>| #[trigger] ks1.contains(x) <==> (self.restricted.key_list().take(j as int).contains(x) || x == k@) by {
                if ks1.contains(x) {
                    let q = choose|q: int| 0 <= q < ks1.len() && ks1[q] == x;
                    if q < j {
                        assert(self.restricted.key_list().take(j as int)[q] == x);
                    }
                }
                if self.restricted.key_list().take(j as int).contains(x) {
                    let q = choose|q: int| 0 <= q < j && self.restricted.key_list().take(j as int)[q] == x;
                    assert(ks1[q] == x);
                }
                if x == k@ {
                    assert(ks1[j as int] == x);
                }
            }
            assert(restrictions_map(restricted@) =~= rv.restrict(Set::new(|kk: Seq<char>| ks1.contains(kk))));
            j = j + 1;
        }
        assert(self.restricted.key_list().take(n as int) =~= self.restricted.key_list());
        assert(restrictions_map(restricted@) =~= rv);
        let p = StoreParts {
            grants: self.grants.entries(),
            cap_overrides: self.cap_overrides.entries(),
            access,
            until: self.until.entries(),
            uses: self.uses.entries(),
            strict: self.strict,
            restricted,
        };
        assert(store_of_parts(p) =~= (StoreView { once: Set::empty(), ..self@ }));
        p
    }

    /// The store that parts describe, as read back after a restart.
    pub fn from_parts(p: StoreParts) -> (s: PermissionStore)
        ensures
            s@ == store_of_parts(p),
    {
        let mut restricted: StrMap<Restriction> = StrMap::new();
        let mut j: usize = 0;
        assert(restricted.view().map_values(|r: Restriction| r@) =~= restrictions_map(p.restricted@.take(0)));
        while j < p.restricted.len()
            invariant
                j <= p.restricted@.len(),
                restricted.view().map_values(|r: Restriction| r@) == restrictions_map(p.restricted@.take(j as int)),
            decreases p.restricted@.len() - j,
        {
            let e = &p.restricted[j];
            let ghost before = restricted.view();
            restricted.insert(e.0.clone(), e.1.clone());
            assert(p.restricted@.take(j + 1).drop_last() =~= p.restricted@.take(j as int));
            assert(restricted.view().map_values(|r: Restriction| r@) =~= before.map_values(|r: Restriction| r@).insert(
                e.0@,
                e.1@,
            ));
            j = j + 1;
        }
        assert(p.restricted@.take(p.restricted@.len() as int) =~= p.restricted@);
        let ghost pv = store_of_parts(p);
        let s = PermissionStore {
            grants: PairMap::from_entries(&p.grants),
            cap_overrides: PairMap::from_entries(&p.cap_overrides),
            access: p.access,
            once: OnceGrants::new(),
            until: PairMap::from_entries(&p.until),
            uses: PairMap::from_entries(&p.uses),
            strict: p.strict,
            restricted,
        };
        assert(s@.once =~= Set::<(Seq<char>, Seq<char>)>::empty());
        assert(s@ =~= pv);
        s
    }
}

/// What is written down and read back is the store itself, less its
/// one-time grants: answers, capability answers, timed grants, use counts,
/// the access record, strict mode and restrictions all survive a restart,
/// and "Allow Once" never does.
pub proof fn law_restart_keeps_all_but_one_time_grants(s: StoreView, p: StoreParts)
    requires
        store_of_parts(p) == (StoreView { once: Set::empty(), ..s }),
    ensures
        store_of_parts(p).grants == s.grants,
        store_of_parts(p).cap_overrides == s.cap_overrides,
        store_of_parts(p).until == s.until,
        store_of_parts(p).uses == s.uses,
        store_of_parts(p).access == s.access,
        store_of_parts(p).strict == s.strict,
        store_of_parts(p).restricted == s.restricted,
        store_of_parts(p).once.is_empty(),
{
}


impl Clone for PermissionStore {
    /// A copy holding the same answers, grants, records and restrictions,
    /// one-time grants included.
    fn clone(&self) -> (r: Self)
        ensures
            r@ == self@,
    {
        let mut r = PermissionStore::from_parts(self.to_parts());
        r.once = self.once.duplicate();
        assert(r@ =~= self@);
        r
    }
}

} // verus!
