//! Mini-app manifests: what the host knows about one installed app, and
//! the declarations that decide which of its capabilities can ever be
//! granted.

use vstd::prelude::*;

use crate::capabilities::{by_id, find_first, has_id, Capability, CapabilityView};
use crate::maps::StrMap;
use crate::permission::{lemma_perm_ids_distinct, perm_id, Permission};
use crate::text::{chars_eq, chars_of, contains_text, copy_strings, owned, texts, trim};

verus! {

/// A stable identifier for an installed mini-app, e.g. `"roll-call"`.
pub type MiniAppId = String;

/// A widget-form script some bundles carry. Kept for bundle compatibility;
/// it is never run.
#[derive(Debug)]
pub struct WidgetManifest {
    /// The Splash source code of the widget form of the app.
    pub source: String,
    /// Default size in grid cells (cols, rows).
    pub default_span: (u8, u8),
    /// Minimum size in grid cells.
    pub min_span: (u8, u8),
}

impl Clone for WidgetManifest {
    fn clone(&self) -> (r: Self)
        ensures
            r.source@ == self.source@,
            r.default_span == self.default_span,
            r.min_span == self.min_span,
    {
        WidgetManifest {
            source: self.source.clone(),
            default_span: self.default_span,
            min_span: self.min_span,
        }
    }
}

/// What a mini-app is scoped to. An account app opens standalone; a room app
/// belongs to one room and gets that room's services.
#[derive(Debug)]
pub enum A2AppScope {
    Account,
    Room { room_id: String },
}

impl A2AppScope {
    /// The room the app belongs to, if any.
    pub open spec fn room(&self) -> Option<Seq<char>> {
        match self {
            A2AppScope::Account => None,
            A2AppScope::Room { room_id } => Some(room_id@),
        }
    }
}

/// Everything the host knows about one installed mini-app.
#[derive(Debug)]
pub struct MiniAppManifest {
    pub id: MiniAppId,
    /// Display name shown under the icon.
    pub name: String,
    /// Emoji drawn as the icon glyph.
    pub icon: String,
    /// Tint color of the icon tile, as 0xRRGGBB.
    pub tint: u32,
    /// The Splash source code of the app itself.
    pub source: String,
    /// Legacy pre-permissions flag; normalized into `permissions` and kept in
    /// step with it so older readers still see exported apps right.
    pub allow_net: bool,
    /// Permission ids this app declares it may use. Undeclared capabilities
    /// are ungrantable; grant state is the user's and never travels with the
    /// app.
    pub permissions: Vec<String>,
    /// Why this app wants each permission, in its own words, keyed by
    /// permission id.
    pub permission_reasons: StrMap<String>,
    /// Individual capability ids the app lists; each narrows its group to
    /// just the listed capabilities.
    pub capabilities: Vec<String>,
    /// Pre-installed apps cannot be uninstalled.
    pub builtin: bool,
    /// The widget form some bundles carry; never run.
    pub widget: Option<WidgetManifest>,
    /// Quick-action labels some bundles carry.
    pub shortcuts: Vec<String>,
    /// Where this app lives: the whole account, or attached to one room.
    pub scope: A2AppScope,
}

/// The mathematical content of a [`MiniAppManifest`].
pub struct ManifestView {
    pub id: Seq<char>,
    pub name: Seq<char>,
    pub icon: Seq<char>,
    pub tint: u32,
    pub source: Seq<char>,
    pub allow_net: bool,
    pub permissions: Seq<Seq<char>>,
    pub permission_reasons: Map<Seq<char>, Seq<char>>,
    pub capabilities: Seq<Seq<char>>,
    pub builtin: bool,
    pub widget: Option<(Seq<char>, (u8, u8), (u8, u8))>,
    pub shortcuts: Seq<Seq<char>>,
    pub scope: Option<Seq<char>>,
}

/// The texts a string-valued map holds.
pub open spec fn text_values(m: Map<Seq<char>, String>) -> Map<Seq<char>, Seq<char>> {
    m.map_values(|s: String| s@)
}

impl View for MiniAppManifest {
    type V = ManifestView;

    open spec fn view(&self) -> ManifestView {
        ManifestView {
            id: self.id@,
            name: self.name@,
            icon: self.icon@,
            tint: self.tint,
            source: self.source@,
            allow_net: self.allow_net,
            permissions: texts(self.permissions@),
            permission_reasons: text_values(self.permission_reasons.view()),
            capabilities: texts(self.capabilities@),
            builtin: self.builtin,
            widget: match self.widget {
                Some(w) => Some((w.source@, w.default_span, w.min_span)),
                None => None,
            },
            shortcuts: texts(self.shortcuts@),
            scope: self.scope.room(),
        }
    }
}

/// Whether the app declares a group (the precondition for it ever being
/// granted).
pub open spec fn declares(m: ManifestView, p: Permission) -> bool {
    m.permissions.contains(perm_id(p))
}

/// Whether a text is the id of some group.
pub open spec fn is_perm_id(s: Seq<char>) -> bool {
    exists|p: Permission| perm_id(p) == s
}

/// Whether a text is the id of some catalog capability.
pub open spec fn is_cap_id(s: Seq<char>) -> bool {
    find_first(has_id(s)) is Some
}

/// The group of the catalog capability with this id, if it has one.
pub open spec fn cap_group_of(id: Seq<char>) -> Option<Permission> {
    match find_first(has_id(id)) {
        Some(c) => c.group,
        None => None,
    }
}

/// The app lists at least one capability of group `g`, which narrows `g`
/// to the listed ones.
pub open spec fn narrowed(m: ManifestView, g: Permission) -> bool {
    exists|i: int| 0 <= i < m.capabilities.len() && cap_group_of(m.capabilities[i]) == Some(g)
}

/// Whether the app declares a single capability: plumbing every app gets, or
/// a capability of a declared group that is either not narrowed or listed.
pub open spec fn declares_capability(m: ManifestView, c: CapabilityView) -> bool {
    match c.group {
        None => true,
        Some(g) => declares(m, g) && (narrowed(m, g) ==> m.capabilities.contains(c.id)),
    }
}

/// The legacy flag turned into a declaration.
pub open spec fn with_network(perms: Seq<Seq<char>>, allow_net: bool) -> Seq<Seq<char>> {
    if allow_net && !perms.contains(perm_id(Permission::Network)) {
        perms.push(perm_id(Permission::Network))
    } else {
        perms
    }
}

/// The groups of the listed capabilities, appended in listing order when
/// missing.
pub open spec fn with_groups(perms: Seq<Seq<char>>, caps: Seq<Seq<char>>) -> Seq<Seq<char>>
    decreases caps.len(),
{
    if caps.len() == 0 {
        perms
    } else {
        let acc = with_groups(perms, caps.drop_last());
        match cap_group_of(caps.last()) {
            Some(g) => if acc.contains(perm_id(g)) {
                acc
            } else {
                acc.push(perm_id(g))
            },
            None => acc,
        }
    }
}

/// The first occurrence of each text that `keep` accepts, in order.
pub open spec fn dedup_filter(s: Seq<Seq<char>>, keep: spec_fn(Seq<char>) -> bool) -> Seq<Seq<char>>
    decreases s.len(),
{
    if s.len() == 0 {
        s
    } else {
        let d = dedup_filter(s.drop_last(), keep);
        if keep(s.last()) && !d.contains(s.last()) {
            d.push(s.last())
        } else {
            d
        }
    }
}

/// The declarations after normalization.
pub open spec fn normalized_permissions(m: ManifestView) -> Seq<Seq<char>> {
    dedup_filter(
        with_groups(with_network(m.permissions, m.allow_net), m.capabilities),
        |s: Seq<char>| is_perm_id(s),
    )
}

/// The listed capabilities after normalization.
pub open spec fn normalized_capabilities(m: ManifestView) -> Seq<Seq<char>> {
    dedup_filter(m.capabilities, |s: Seq<char>| is_cap_id(s))
}

/// A manifest after normalization: unknown and repeated ids dropped, the
/// legacy flag and the listed capabilities' groups turned into
/// declarations, reasons only for what is declared, the flag mirroring the
/// `network` declaration.
pub open spec fn normalized(m: ManifestView) -> ManifestView {
    let perms = normalized_permissions(m);
    ManifestView {
        permissions: perms,
        capabilities: normalized_capabilities(m),
        permission_reasons: m.permission_reasons.restrict(perms.to_set()),
        allow_net: perms.contains(perm_id(Permission::Network)),
        ..m
    }
}

/// The app's own explanation for a group, when it gave a non-blank one.
pub open spec fn reason_of(m: ManifestView, p: Permission) -> Option<Seq<char>> {
    if m.permission_reasons.contains_key(perm_id(p)) && trim(m.permission_reasons[perm_id(p)]).len()
        > 0 {
        Some(m.permission_reasons[perm_id(p)])
    } else {
        None
    }
}

pub proof fn lemma_dedup_filter(s: Seq<Seq<char>>, keep: spec_fn(Seq<char>) -> bool)
    ensures
        dedup_filter(s, keep).no_duplicates(),
        forall|x: Seq<char>| #[trigger]
            dedup_filter(s, keep).contains(x) <==> (s.contains(x) && keep(x)),
    decreases s.len(),
{
    if s.len() > 0 {
        let t = s.drop_last();
        lemma_dedup_filter(t, keep);
        assert forall|x: Seq<char>| #[trigger] s.contains(x) <==> (t.contains(x) || x == s.last()) by {
            if s.contains(x) {
                let i = choose|i: int| 0 <= i < s.len() && s[i] == x;
                if i < s.len() - 1 {
                    assert(t[i] == x);
                }
            }
            if t.contains(x) {
                let i = choose|i: int| 0 <= i < t.len() && t[i] == x;
                assert(s[i] == x);
            }
            if x == s.last() {
                assert(s[s.len() - 1] == x);
            }
        }
        let d = dedup_filter(t, keep);
        let res = dedup_filter(s, keep);
        if keep(s.last()) && !d.contains(s.last()) {
            assert(res == d.push(s.last()));
            assert forall|x: Seq<char>| #[trigger] res.contains(x) <==> (d.contains(x) || x == s.last()) by {
                if res.contains(x) {
                    let i = choose|i: int| 0 <= i < res.len() && res[i] == x;
                    if i < d.len() {
                        assert(d[i] == x);
                    }
                }
                if d.contains(x) {
                    let i = choose|i: int| 0 <= i < d.len() && d[i] == x;
                    assert(res[i] == x);
                }
                if x == s.last() {
                    assert(res[d.len() as int] == x);
                }
            }
        } else {
            assert(res == d);
        }
    } else {
        assert(s =~= Seq::<Seq<char>>::empty());
    }
}

/// Every listed capability's group ends up declared.
pub proof fn lemma_with_groups(perms: Seq<Seq<char>>, caps: Seq<Seq<char>>)
    ensures
        forall|x: Seq<char>| perms.contains(x) ==> #[trigger] with_groups(perms, caps).contains(x),
        forall|i: int|
            0 <= i < caps.len() && (#[trigger] cap_group_of(caps[i])) is Some ==> with_groups(
                perms,
                caps,
            ).contains(perm_id(cap_group_of(caps[i])->Some_0)),
        forall|x: Seq<char>| #[trigger]
            with_groups(perms, caps).contains(x) ==> perms.contains(x) || is_perm_id(x),
    decreases caps.len(),
{
    if caps.len() > 0 {
        let t = caps.drop_last();
        lemma_with_groups(perms, t);
        let acc = with_groups(perms, t);
        let res = with_groups(perms, caps);
        assert forall|x: Seq<char>| acc.contains(x) implies res.contains(x) by {
            let i = choose|i: int| 0 <= i < acc.len() && acc[i] == x;
            assert(res[i] == x);
        }
        assert forall|i: int|
            0 <= i < caps.len() && (#[trigger] cap_group_of(caps[i])) is Some implies res.contains(
            perm_id(cap_group_of(caps[i])->Some_0),
        ) by {
            if i < caps.len() - 1 {
                assert(t[i] == caps[i]);
                assert(acc.contains(perm_id(cap_group_of(t[i])->Some_0)));
            } else {
                let g = cap_group_of(caps.last())->Some_0;
                if !acc.contains(perm_id(g)) {
                    assert(res[res.len() - 1] == perm_id(g));
                }
            }
        }
        assert forall|x: Seq<char>| #[trigger] res.contains(x) implies perms.contains(x) || is_perm_id(
            x,
        ) by {
            if !acc.contains(x) {
                let g = cap_group_of(caps.last())->Some_0;
                let i = choose|i: int| 0 <= i < res.len() && res[i] == x;
                if i < acc.len() {
                    assert(acc[i] == x);
                }
                assert(perm_id(g) == x);
            }
        }
    }
}

impl Default for A2AppScope {
    /// The whole account.
    fn default() -> (r: A2AppScope)
        ensures
            r.room() is None,
    {
        A2AppScope::Account
    }
}

impl Clone for A2AppScope {
    fn clone(&self) -> (r: Self)
        ensures
            r.room() == self.room(),
    {
        match self {
            A2AppScope::Account => A2AppScope::Account,
            A2AppScope::Room { room_id } => A2AppScope::Room { room_id: room_id.clone() },
        }
    }
}

impl Clone for MiniAppManifest {
    fn clone(&self) -> (r: Self)
        ensures
            r@ == self@,
    {
        let widget = match &self.widget {
            Some(w) => Some(w.clone()),
            None => None,
        };
        let r = MiniAppManifest {
            id: self.id.clone(),
            name: self.name.clone(),
            icon: self.icon.clone(),
            tint: self.tint,
            source: self.source.clone(),
            allow_net: self.allow_net,
            permissions: copy_strings(&self.permissions),
            permission_reasons: self.permission_reasons.duplicate(),
            capabilities: copy_strings(&self.capabilities),
            builtin: self.builtin,
            widget,
            shortcuts: copy_strings(&self.shortcuts),
            scope: self.scope.clone(),
        };
        assert(r@ =~= self@);
        r
    }
}

impl MiniAppManifest {
    /// Whether this app declares a permission (the precondition for it ever
    /// being granted).
    pub fn declares(&self, perm: Permission) -> (r: bool)
        ensures
            r == declares(self@, perm),
    {
        contains_text(&self.permissions, perm.as_str())
    }

    /// Whether this app declares one single capability.
    pub fn declares_capability(&self, cap: &Capability) -> (r: bool)
        ensures
            r == declares_capability(self@, cap@),
    {
        match cap.group {
            None => true,
            Some(g) => {
                if !self.declares(g) {
                    return false;
                }
                let mut narrowed_here = false;
                let mut i: usize = 0;
                while i < self.capabilities.len()
                    invariant
                        i <= self.capabilities@.len(),
                        narrowed_here == exists|j: int|
                            0 <= j < i && cap_group_of(texts(self.capabilities@)[j]) == Some(g),
                    decreases self.capabilities@.len() - i,
                {
                    let listed = by_id(self.capabilities[i].as_str());
                    let same = match listed {
                        Some(c) => match c.group {
                            Some(h) => h == g,
                            None => false,
                        },
                        None => false,
                    };
                    assert(texts(self.capabilities@)[i as int] == self.capabilities@[i as int]@);
                    if same {
                        narrowed_here = true;
                    }
                    assert(narrowed_here == exists|j: int|
                        0 <= j < i + 1 && cap_group_of(texts(self.capabilities@)[j]) == Some(g)) by {
                        if exists|j: int|
                            0 <= j < i + 1 && cap_group_of(texts(self.capabilities@)[j]) == Some(g) {
                            let j = choose|j: int|
                                0 <= j < i + 1 && cap_group_of(texts(self.capabilities@)[j]) == Some(g);
                            if j < i {
                                assert(exists|j2: int|
                                    0 <= j2 < i && cap_group_of(texts(self.capabilities@)[j2]) == Some(g));
                            }
                        }
                    }
                    i = i + 1;
                }
                !narrowed_here || contains_text(&self.capabilities, cap.id)
            },
        }
    }

    /// The app's own explanation for wanting a permission, if it gave one.
    pub fn reason_for(&self, perm: Permission) -> (r: Option<&str>)
        ensures
            match r {
                Some(s) => reason_of(self@, perm) == Some(s@),
                None => reason_of(self@, perm) is None,
            },
    {
        match self.permission_reasons.get(perm.as_str()) {
            None => None,
            Some(reason) => {
                let v = chars_of(reason.as_str());
                let (a, b) = crate::text::trim_bounds(v.as_slice(), 0, v.len());
                assert(v@.subrange(0, v@.len() as int) =~= v@);
                if a < b {
                    Some(reason.as_str())
                } else {
                    None
                }
            },
        }
    }

    /// Reconciles the legacy `allow_net` flag with the `permissions` list in
    /// both directions, pulls in the groups of listed capabilities, and drops
    /// unknown and repeated ids. Call wherever a manifest enters the system.
    pub fn normalize_permissions(&mut self)
        ensures
            final(self)@ == normalized(old(self)@),
    {
        let ghost m = self@;
        let mut perms: Vec<String> = Vec::new();
        std::mem::swap(&mut perms, &mut self.permissions);
        if self.allow_net && !contains_text(&perms, "network") {
            perms.push(owned("network"));
        }
        assert(texts(perms@) == with_network(m.permissions, m.allow_net)) by {
            reveal_strlit("network");
        }
        let ghost base = texts(perms@);
        let mut i: usize = 0;
        while i < self.capabilities.len()
            invariant
                i <= self.capabilities@.len(),
                texts(self.capabilities@) == m.capabilities,
                texts(perms@) == with_groups(base, m.capabilities.take(i as int)),
            decreases self.capabilities@.len() - i,
        {
            let ghost before = texts(perms@);
            assert(m.capabilities.take(i + 1).drop_last() =~= m.capabilities.take(i as int));
            assert(m.capabilities.take(i + 1).last() == self.capabilities@[i as int]@);
            match by_id(self.capabilities[i].as_str()) {
                Some(c) => match c.group {
                    Some(g) => {
                        if !contains_text(&perms, g.as_str()) {
                            perms.push(owned(g.as_str()));
                            assert(texts(perms@) =~= before.push(perm_id(g)));
                        }
                    },
                    None => {},
                },
                None => {},
            }
            i = i + 1;
        }
        assert(m.capabilities.take(i as int) =~= m.capabilities);
        let ghost grouped = texts(perms@);
        let mut seen: Vec<String> = Vec::new();
        let mut j: usize = 0;
        while j < perms.len()
            invariant
                j <= perms@.len(),
                texts(perms@) == grouped,
                texts(seen@) == dedup_filter(grouped.take(j as int), |s: Seq<char>| is_perm_id(s)),
            decreases perms@.len() - j,
        {
            let ghost before = texts(seen@);
            assert(grouped.take(j + 1).drop_last() =~= grouped.take(j as int));
            assert(grouped.take(j + 1).last() == perms@[j as int]@);
            let known = match Permission::from_str(perms[j].as_str()) {
                Some(_) => true,
                None => false,
            };
            if known && !contains_text(&seen, perms[j].as_str()) {
                let item = perms[j].clone();
                seen.push(item);
                assert(texts(seen@) =~= before.push(perms@[j as int]@));
            }
            j = j + 1;
        }
        assert(grouped.take(j as int) =~= grouped);
        self.permissions = seen;
        let mut caps_seen: Vec<String> = Vec::new();
        let mut k: usize = 0;
        while k < self.capabilities.len()
            invariant
                k <= self.capabilities@.len(),
                texts(self.capabilities@) == m.capabilities,
                texts(caps_seen@) == dedup_filter(m.capabilities.take(k as int), |s: Seq<char>| is_cap_id(s)),
            decreases self.capabilities@.len() - k,
        {
            let ghost before = texts(caps_seen@);
            assert(m.capabilities.take(k + 1).drop_last() =~= m.capabilities.take(k as int));
            assert(m.capabilities.take(k + 1).last() == self.capabilities@[k as int]@);
            let known = match by_id(self.capabilities[k].as_str()) {
                Some(_) => true,
                None => false,
            };
            if known && !contains_text(&caps_seen, self.capabilities[k].as_str()) {
                let item = self.capabilities[k].clone();
                caps_seen.push(item);
                assert(texts(caps_seen@) =~= before.push(self.capabilities@[k as int]@));
            }
            k = k + 1;
        }
        assert(m.capabilities.take(k as int) =~= m.capabilities);
        self.capabilities = caps_seen;
        self.permission_reasons.retain_keys(&self.permissions);
        self.allow_net = self.declares(Permission::Network);
        proof {
            let perms_final = normalized_permissions(m);
            assert(texts(self.permissions@) == perms_final);
            assert(text_values(self.permission_reasons.view()) =~= m.permission_reasons.restrict(
                perms_final.to_set(),
            ));
            assert(self@ =~= normalized(m));
        }
    }

    /// Adds a declaration (the capability editor for apps the user owns).
    /// Nothing changes when it is already declared.
    pub fn declare(&mut self, perm: Permission)
        ensures
            declares(old(self)@, perm) ==> final(self)@ == old(self)@,
            !declares(old(self)@, perm) ==> final(self)@ == normalized(
                ManifestView { permissions: old(self)@.permissions.push(perm_id(perm)), ..old(self)@ },
            ),
    {
        if !self.declares(perm) {
            self.permissions.push(owned(perm.as_str()));
            proof {
                assert(texts(self.permissions@) =~= old(self)@.permissions.push(perm_id(perm)));
            }
            self.normalize_permissions();
        }
    }

    /// Removes a declaration, which also makes the group ungrantable: its
    /// reason and any listed capability of the group go with it, and
    /// removing `network` clears the legacy flag that mirrors it.
    pub fn undeclare(&mut self, perm: Permission)
        ensures
            final(self)@ == normalized(
                ManifestView {
                    permissions: old(self)@.permissions.filter(|s: Seq<char>| s != perm_id(perm)),
                    capabilities: old(self)@.capabilities.filter(
                        |s: Seq<char>| cap_group_of(s) != Some(perm),
                    ),
                    permission_reasons: old(self)@.permission_reasons.remove(perm_id(perm)),
                    allow_net: old(self)@.allow_net && perm != Permission::Network,
                    ..old(self)@
                },
            ),
            !declares(final(self)@, perm),
            final(self)@.permission_reasons.contains_key(perm_id(perm)) == false,
    {
        if perm == Permission::Network {
            self.allow_net = false;
        }
        let ghost m = self@;
        let id = chars_of(perm.as_str());
        let mut kept: Vec<String> = Vec::new();
        let mut i: usize = 0;
        while i < self.permissions.len()
            invariant
                i <= self.permissions@.len(),
                texts(self.permissions@) == m.permissions,
                id@ == perm_id(perm),
                texts(kept@) == m.permissions.take(i as int).filter(|s: Seq<char>| s != perm_id(perm)),
            decreases self.permissions@.len() - i,
        {
            let ghost before = texts(kept@);
            let ghost next = m.permissions.take(i + 1);
            assert(next.drop_last() =~= m.permissions.take(i as int));
            assert(next.last() == self.permissions@[i as int]@);
            let item = chars_of(self.permissions[i].as_str());
            if !chars_eq(item.as_slice(), id.as_slice()) {
                let s = self.permissions[i].clone();
                kept.push(s);
                assert(texts(kept@) =~= before.push(self.permissions@[i as int]@));
            }
            assert(texts(kept@) == next.filter(|s: Seq<char>| s != perm_id(perm))) by {
                reveal(Seq::filter);
            }
            i = i + 1;
        }
        assert(m.permissions.take(i as int) =~= m.permissions);
        self.permissions = kept;
        let mut caps: Vec<String> = Vec::new();
        let mut j: usize = 0;
        while j < self.capabilities.len()
            invariant
                j <= self.capabilities@.len(),
                texts(self.capabilities@) == m.capabilities,
                texts(caps@) == m.capabilities.take(j as int).filter(
                    |s: Seq<char>| cap_group_of(s) != Some(perm),
                ),
            decreases self.capabilities@.len() - j,
        {
            let ghost before = texts(caps@);
            let ghost next = m.capabilities.take(j + 1);
            assert(next.drop_last() =~= m.capabilities.take(j as int));
            assert(next.last() == self.capabilities@[j as int]@);
            let in_group = match by_id(self.capabilities[j].as_str()) {
                Some(c) => match c.group {
                    Some(h) => h == perm,
                    None => false,
                },
                None => false,
            };
            if !in_group {
                let s = self.capabilities[j].clone();
                caps.push(s);
                assert(texts(caps@) =~= before.push(self.capabilities@[j as int]@));
            }
            assert(texts(caps@) == next.filter(|s: Seq<char>| cap_group_of(s) != Some(perm))) by {
                reveal(Seq::filter);
            }
            j = j + 1;
        }
        assert(m.capabilities.take(j as int) =~= m.capabilities);
        self.capabilities = caps;
        let _ = self.permission_reasons.remove(perm.as_str());
        proof {
            assert(text_values(self.permission_reasons.view()) =~= m.permission_reasons.remove(
                perm_id(perm),
            ));
        }
        proof {
            let pre = ManifestView {
                permissions: m.permissions.filter(|s: Seq<char>| s != perm_id(perm)),
                capabilities: m.capabilities.filter(|s: Seq<char>| cap_group_of(s) != Some(perm)),
                permission_reasons: m.permission_reasons.remove(perm_id(perm)),
                ..m
            };
            assert(self@ =~= pre);
            lemma_undeclared_stays_out(pre, perm);
        }
        self.normalize_permissions();
    }
}

/// A group that is neither listed, nor brought in by the legacy flag, nor the
/// group of a listed capability, is still undeclared after normalization.
pub proof fn lemma_undeclared_stays_out(m: ManifestView, perm: Permission)
    requires
        !m.permissions.contains(perm_id(perm)),
        perm == Permission::Network ==> !m.allow_net,
        forall|i: int| 0 <= i < m.capabilities.len() ==> cap_group_of(#[trigger] m.capabilities[i]) != Some(perm),
    ensures
        !declares(normalized(m), perm),
{
    let w = with_network(m.permissions, m.allow_net);
    assert(!w.contains(perm_id(perm))) by {
        if m.allow_net && !m.permissions.contains(perm_id(Permission::Network)) {
            if w.contains(perm_id(perm)) {
                let k = choose|k: int| 0 <= k < w.len() && w[k] == perm_id(perm);
                if k < m.permissions.len() {
                    assert(m.permissions[k] == w[k]);
                }
                lemma_perm_ids_distinct(perm, Permission::Network);
            }
        }
    }
    lemma_with_groups_adds_only_groups(w, m.capabilities, perm);
    lemma_dedup_filter(with_groups(w, m.capabilities), |s: Seq<char>| is_perm_id(s));
}

/// `with_groups` brings in no group that no listed capability belongs to.
proof fn lemma_with_groups_adds_only_groups(perms: Seq<Seq<char>>, caps: Seq<Seq<char>>, perm: Permission)
    requires
        !perms.contains(perm_id(perm)),
        forall|i: int| 0 <= i < caps.len() ==> cap_group_of(#[trigger] caps[i]) != Some(perm),
    ensures
        !with_groups(perms, caps).contains(perm_id(perm)),
    decreases caps.len(),
{
    if caps.len() > 0 {
        let t = caps.drop_last();
        assert forall|i: int| 0 <= i < t.len() implies cap_group_of(#[trigger] t[i]) != Some(perm) by {
            assert(t[i] == caps[i]);
        }
        lemma_with_groups_adds_only_groups(perms, t, perm);
        let acc = with_groups(perms, t);
        assert(cap_group_of(caps[caps.len() - 1]) != Some(perm));
        match cap_group_of(caps.last()) {
            Some(g) => {
                if !acc.contains(perm_id(g)) {
                    lemma_perm_ids_distinct(g, perm);
                    if acc.push(perm_id(g)).contains(perm_id(perm)) {
                        let k = choose|k: int| 0 <= k < acc.len() + 1 && acc.push(perm_id(g))[k] == perm_id(perm);
                        if k < acc.len() {
                            assert(acc[k] == perm_id(perm));
                        }
                    }
                }
            },
            None => {},
        }
    }
}


/// A run without repeats whose every entry `keep` accepts is its own
/// de-duplication.
pub proof fn lemma_dedup_filter_identity(s: Seq<Seq<char>>, keep: spec_fn(Seq<char>) -> bool)
    requires
        s.no_duplicates(),
        forall|i: int| 0 <= i < s.len() ==> keep(#[trigger] s[i]),
    ensures
        dedup_filter(s, keep) == s,
    decreases s.len(),
{
    if s.len() > 0 {
        let t = s.drop_last();
        assert forall|i: int| 0 <= i < t.len() implies keep(#[trigger] t[i]) by {
            assert(t[i] == s[i]);
        }
        lemma_dedup_filter_identity(t, keep);
        lemma_dedup_filter(t, keep);
        assert(keep(s[s.len() - 1]));
        if t.contains(s.last()) {
            let i = choose|i: int| 0 <= i < t.len() && t[i] == s.last();
            assert(s[i] == s[s.len() - 1]);
        }
        assert(s =~= t.push(s.last()));
    }
}

/// Listing capabilities whose groups are all declared adds no declaration.
proof fn lemma_with_groups_identity(perms: Seq<Seq<char>>, caps: Seq<Seq<char>>)
    requires
        forall|i: int|
            0 <= i < caps.len() ==> match cap_group_of(#[trigger] caps[i]) {
                Some(g) => perms.contains(perm_id(g)),
                None => true,
            },
    ensures
        with_groups(perms, caps) == perms,
    decreases caps.len(),
{
    if caps.len() > 0 {
        let t = caps.drop_last();
        assert forall|i: int| 0 <= i < t.len() implies match cap_group_of(#[trigger] t[i]) {
            Some(g) => perms.contains(perm_id(g)),
            None => true,
        } by {
            assert(t[i] == caps[i]);
        }
        lemma_with_groups_identity(perms, t);
        assert(caps.last() == caps[caps.len() - 1]);
    }
}

/// What normalization guarantees: every declared id is a known group,
/// once; every listed capability is a known one, once, with its group
/// declared; reasons only for declared groups; the legacy flag mirrors the
/// `network` declaration; and nothing known that was declared, nor the
/// flag's `network`, is lost.
pub proof fn law_normalized_manifest_is_consistent(m: ManifestView)
    ensures
        ({
            let n = normalized(m);
            &&& n.permissions.no_duplicates()
            &&& forall|i: int| 0 <= i < n.permissions.len() ==> is_perm_id(#[trigger] n.permissions[i])
            &&& n.capabilities.no_duplicates()
            &&& forall|i: int| 0 <= i < n.capabilities.len() ==> is_cap_id(#[trigger] n.capabilities[i])
            &&& forall|i: int|
                0 <= i < n.capabilities.len() ==> match cap_group_of(#[trigger] n.capabilities[i]) {
                    Some(g) => declares(n, g),
                    None => true,
                }
            &&& forall|k: Seq<char>| #[trigger] n.permission_reasons.contains_key(k) ==> n.permissions.contains(k)
            &&& n.allow_net == declares(n, Permission::Network)
            &&& forall|x: Seq<char>| m.permissions.contains(x) && is_perm_id(x) ==> #[trigger] n.permissions.contains(x)
            &&& (m.allow_net ==> declares(n, Permission::Network))
        }),
{
    let n = normalized(m);
    let wn = with_network(m.permissions, m.allow_net);
    let wg = with_groups(wn, m.capabilities);
    lemma_dedup_filter(wg, |s: Seq<char>| is_perm_id(s));
    lemma_dedup_filter(m.capabilities, |s: Seq<char>| is_cap_id(s));
    lemma_with_groups(wn, m.capabilities);
    assert forall|i: int| 0 <= i < n.permissions.len() implies is_perm_id(#[trigger] n.permissions[i]) by {
        assert(n.permissions.contains(n.permissions[i]));
    }
    assert forall|i: int| 0 <= i < n.capabilities.len() implies is_cap_id(#[trigger] n.capabilities[i]) by {
        assert(n.capabilities.contains(n.capabilities[i]));
    }
    assert forall|i: int| 0 <= i < n.capabilities.len() implies match cap_group_of(#[trigger] n.capabilities[i]) {
        Some(g) => declares(n, g),
        None => true,
    } by {
        let c = n.capabilities[i];
        assert(n.capabilities.contains(c));
        assert(m.capabilities.contains(c));
        let j = choose|j: int| 0 <= j < m.capabilities.len() && m.capabilities[j] == c;
        match cap_group_of(c) {
            Some(g) => {
                assert(cap_group_of(m.capabilities[j]) is Some);
                assert(wg.contains(perm_id(g)));
                assert(is_perm_id(perm_id(g)));
            },
            None => {},
        }
    }
    assert forall|x: Seq<char>| m.permissions.contains(x) && is_perm_id(x) implies #[trigger] n.permissions.contains(x) by {
        if m.permissions.contains(x) {
            let i = choose|i: int| 0 <= i < m.permissions.len() && m.permissions[i] == x;
            assert(wn.contains(x)) by {
                if m.allow_net && !m.permissions.contains(perm_id(Permission::Network)) {
                    assert(wn[i] == x);
                }
            }
        }
    }
    if m.allow_net {
        assert(wn.contains(perm_id(Permission::Network))) by {
            if !m.permissions.contains(perm_id(Permission::Network)) {
                assert(wn[wn.len() - 1] == perm_id(Permission::Network));
            }
        }
        assert(is_perm_id(perm_id(Permission::Network)));
    }
}

/// Normalizing twice is normalizing once.
pub proof fn law_normalize_is_idempotent(m: ManifestView)
    ensures
        normalized(normalized(m)) == normalized(m),
{
    let n = normalized(m);
    law_normalized_manifest_is_consistent(m);
    assert(with_network(n.permissions, n.allow_net) == n.permissions);
    lemma_with_groups_identity(n.permissions, n.capabilities);
    lemma_dedup_filter_identity(n.permissions, |s: Seq<char>| is_perm_id(s));
    lemma_dedup_filter_identity(n.capabilities, |s: Seq<char>| is_cap_id(s));
    let nn = normalized(n);
    assert(nn.permissions == n.permissions);
    assert(nn.capabilities == n.capabilities);
    assert(nn.permission_reasons =~= n.permission_reasons);
    assert(nn =~= n);
}

} // verus!
