//! The registry of installed apps, in a stable order, and the host tags
//! that name one running instance of an app.

use vstd::prelude::*;

use crate::manifest::{ManifestView, MiniAppManifest};
use crate::text::{chars_eq, chars_of, owned, push_text};

verus! {

/// The ids of a run of manifests.
pub open spec fn ids_of(s: Seq<ManifestView>) -> Seq<Seq<char>> {
    s.map_values(|m: ManifestView| m.id)
}

/// The first position at or after `i` holding an app with this id.
pub open spec fn find_id_from(s: Seq<ManifestView>, id: Seq<char>, i: int) -> Option<int>
    decreases s.len() - i,
{
    if i < 0 || i >= s.len() {
        None
    } else if s[i].id == id {
        Some(i)
    } else {
        find_id_from(s, id, i + 1)
    }
}

/// The first position holding an app with this id.
pub open spec fn find_id(s: Seq<ManifestView>, id: Seq<char>) -> Option<int> {
    find_id_from(s, id, 0)
}

/// Installing an app: it replaces the app with the same id in place, or
/// goes at the end.
pub open spec fn registry_insert(s: Seq<ManifestView>, m: ManifestView) -> Seq<ManifestView> {
    match find_id(s, m.id) {
        Some(i) => s.update(i, m),
        None => s.push(m),
    }
}

/// The registry built by installing each app in turn.
pub open spec fn registry_from(ms: Seq<ManifestView>) -> Seq<ManifestView>
    decreases ms.len(),
{
    if ms.len() == 0 {
        Seq::empty()
    } else {
        registry_insert(registry_from(ms.drop_last()), ms.last())
    }
}

/// No two apps share an id.
pub open spec fn unique_ids(s: Seq<ManifestView>) -> bool {
    forall|i: int, j: int| 0 <= i < j < s.len() ==> (#[trigger] s[i]).id != (#[trigger] s[j]).id
}

pub proof fn lemma_find_id_from(s: Seq<ManifestView>, id: Seq<char>, i: int)
    requires
        0 <= i <= s.len(),
    ensures
        match find_id_from(s, id, i) {
            Some(k) => i <= k < s.len() && s[k].id == id && forall|j: int|
                i <= j < k ==> s[j].id != id,
            None => forall|j: int| i <= j < s.len() ==> s[j].id != id,
        },
    decreases s.len() - i,
{
    if i < s.len() {
        lemma_find_id_from(s, id, i + 1);
    }
}

/// Where an app sits, stated without recursion.
pub proof fn lemma_find_id(s: Seq<ManifestView>, id: Seq<char>)
    ensures
        match find_id(s, id) {
            Some(k) => 0 <= k < s.len() && s[k].id == id && forall|j: int| 0 <= j < k ==> s[j].id != id,
            None => forall|j: int| 0 <= j < s.len() ==> s[j].id != id,
        },
{
    lemma_find_id_from(s, id, 0);
}

/// Every installed app, in a stable order.
pub struct AppRegistry {
    apps: Vec<MiniAppManifest>,
}

impl AppRegistry {
    /// The installed apps, in order.
    pub closed spec fn view(&self) -> Seq<ManifestView> {
        self.apps@.map_values(|m: MiniAppManifest| m@)
    }

    /// A registry of the given apps; a later app with an id already seen
    /// replaces the earlier one in its place.
    pub fn new(apps: Vec<MiniAppManifest>) -> (r: AppRegistry)
        ensures
            r.view() == registry_from(apps@.map_values(|m: MiniAppManifest| m@)),
    {
        let ghost ms = apps@.map_values(|m: MiniAppManifest| m@);
        let mut registry = AppRegistry { apps: Vec::new() };
        assert(registry.view() =~= registry_from(ms.take(0)));
        let mut rest = apps;
        let mut i: usize = 0;
        let n = rest.len();
        while rest.len() > 0
            invariant
                n == ms.len(),
                i + rest@.len() == n,
                rest@.map_values(|m: MiniAppManifest| m@) == ms.skip(i as int),
                registry.view() == registry_from(ms.take(i as int)),
            decreases rest@.len(),
        {
            let ghost r0 = rest@;
            let app = rest.remove(0);
            assert(app == r0[0]);
            assert(r0.map_values(|m: MiniAppManifest| m@)[0] == r0[0]@);
            assert(ms.skip(i as int)[0] == ms[i as int]);
            assert(app@ == ms[i as int]);
            assert(rest@ =~= r0.skip(1));
            assert(ms.take(i + 1).drop_last() =~= ms.take(i as int));
            registry.insert(app);
            let ghost i0 = i;
            i = i + 1;
            assert(rest@.map_values(|m: MiniAppManifest| m@) =~= r0.map_values(|m: MiniAppManifest| m@).skip(1));
            assert(ms.skip(i0 as int).skip(1) =~= ms.skip(i as int));
        }
        assert(ms.take(n as int) =~= ms);
        registry
    }

    fn position(&self, id: &str) -> (r: Option<usize>)
        ensures
            match r {
                Some(i) => find_id(self.view(), id@) == Some(i as int) && i < self.apps@.len(),
                None => find_id(self.view(), id@) is None,
            },
    {
        proof {
            lemma_find_id(self.view(), id@);
        }
        let target = chars_of(id);
        let mut i: usize = 0;
        while i < self.apps.len()
            invariant
                i <= self.apps@.len(),
                target@ == id@,
                forall|j: int| 0 <= j < i ==> self.view()[j].id != id@,
            decreases self.apps@.len() - i,
        {
            let app_id = chars_of(self.apps[i].id.as_str());
            if chars_eq(app_id.as_slice(), target.as_slice()) {
                proof {
                    lemma_find_id(self.view(), id@);
                    if let Some(k) = find_id(self.view(), id@) {
                        if k < i {
                            assert(self.view()[k].id != id@);
                        }
                        assert(self.view()[i as int].id == id@);
                    }
                }
                return Some(i);
            }
            i = i + 1;
        }
        None
    }

    /// Installs an app, replacing any app with the same id in place.
    pub fn insert(&mut self, app: MiniAppManifest)
        ensures
            final(self).view() == registry_insert(old(self).view(), app@),
    {
        let ghost a = app@;
        match self.position(app.id.as_str()) {
            Some(i) => {
                self.apps.set(i, app);
                assert(self.view() =~= old(self).view().update(i as int, a));
            },
            None => {
                self.apps.push(app);
                assert(self.view() =~= old(self).view().push(a));
            },
        }
    }

    /// Uninstalls an app, handing its manifest back.
    pub fn remove(&mut self, id: &str) -> (r: Option<MiniAppManifest>)
        ensures
            match find_id(old(self).view(), id@) {
                Some(i) => r matches Some(m) && m@ == old(self).view()[i] && final(self).view()
                    == old(self).view().remove(i),
                None => r is None && final(self).view() == old(self).view(),
            },
    {
        match self.position(id) {
            Some(i) => {
                let m = self.apps.remove(i);
                assert(self.view() =~= old(self).view().remove(i as int));
                Some(m)
            },
            None => None,
        }
    }

    pub fn get(&self, id: &str) -> (r: Option<&MiniAppManifest>)
        ensures
            match find_id(self.view(), id@) {
                Some(i) => r matches Some(m) && m@ == self.view()[i],
                None => r is None,
            },
    {
        match self.position(id) {
            Some(i) => Some(&self.apps[i]),
            None => None,
        }
    }

    pub fn get_mut(&mut self, id: &str) -> (r: Option<&mut MiniAppManifest>)
        ensures
            match find_id(old(self).view(), id@) {
                Some(i) => r is Some && (*r.unwrap())@ == old(self).view()[i] && final(self).view()
                    == old(self).view().update(i, (*final(r.unwrap()))@),
                None => r is None && final(self).view() == old(self).view(),
            },
    {
        match self.position(id) {
            Some(i) => {
                let m = &mut self.apps[i];
                Some(m)
            },
            None => None,
        }
    }

    pub fn contains(&self, id: &str) -> (r: bool)
        ensures
            r == (find_id(self.view(), id@) is Some),
    {
        match self.position(id) {
            Some(_) => true,
            None => false,
        }
    }

    /// The installed apps, in order.
    pub fn iter(&self) -> (r: &[MiniAppManifest])
        ensures
            r@.map_values(|m: MiniAppManifest| m@) == self.view(),
    {
        self.apps.as_slice()
    }

    pub fn len(&self) -> (n: usize)
        ensures
            n == self.view().len(),
    {
        self.apps.len()
    }

    pub fn is_empty(&self) -> (r: bool)
        ensures
            r == (self.view().len() == 0),
    {
        self.apps.len() == 0
    }
}

/// Installing keeps ids unique, and the installed app is then the one found
/// under its id.
pub proof fn law_insert_keeps_ids_unique(s: Seq<ManifestView>, m: ManifestView)
    requires
        unique_ids(s),
    ensures
        unique_ids(registry_insert(s, m)),
        find_id(registry_insert(s, m), m.id) matches Some(i) && registry_insert(s, m)[i] == m,
{
    lemma_find_id(s, m.id);
    let r = registry_insert(s, m);
    lemma_find_id(r, m.id);
    match find_id(s, m.id) {
        Some(k) => {
            assert forall|i: int, j: int| 0 <= i < j < r.len() implies (#[trigger] r[i]).id != (
            #[trigger] r[j]).id by {
                if i != k && j != k {
                    assert(r[i] == s[i] && r[j] == s[j]);
                }
            }
            assert(r[k].id == m.id);
            if let Some(q) = find_id(r, m.id) {
                if q < k {
                    assert(r[q] == s[q]);
                }
            }
        },
        None => {
            assert forall|i: int, j: int| 0 <= i < j < r.len() implies (#[trigger] r[i]).id != (
            #[trigger] r[j]).id by {
                if j < s.len() {
                    assert(r[i] == s[i] && r[j] == s[j]);
                } else {
                    assert(r[i] == s[i]);
                }
            }
            assert(r[s.len() as int].id == m.id);
            if let Some(q) = find_id(r, m.id) {
                if q < s.len() {
                    assert(r[q] == s[q]);
                }
            }
        },
    }
}

/// A registry built from any list of apps has unique ids.
pub proof fn law_registry_ids_are_unique(ms: Seq<ManifestView>)
    ensures
        unique_ids(registry_from(ms)),
    decreases ms.len(),
{
    if ms.len() > 0 {
        law_registry_ids_are_unique(ms.drop_last());
        law_insert_keeps_ids_unique(registry_from(ms.drop_last()), ms.last());
    }
}

/// Uninstalling keeps ids unique and leaves no app under the id.
pub proof fn law_remove_forgets_the_app(s: Seq<ManifestView>, id: Seq<char>)
    requires
        unique_ids(s),
    ensures
        match find_id(s, id) {
            Some(i) => unique_ids(s.remove(i)) && find_id(s.remove(i), id) is None,
            None => true,
        },
{
    lemma_find_id(s, id);
    if let Some(k) = find_id(s, id) {
        let r = s.remove(k);
        lemma_find_id(r, id);
        assert forall|i: int, j: int| 0 <= i < j < r.len() implies (#[trigger] r[i]).id != (
        #[trigger] r[j]).id by {
            let i2 = if i < k {
                i
            } else {
                i + 1
            };
            let j2 = if j < k {
                j
            } else {
                j + 1
            };
            assert(r[i] == s[i2] && r[j] == s[j2]);
        }
        if let Some(q) = find_id(r, id) {
            if q < k {
                assert(r[q] == s[q]);
            } else {
                assert(r[q] == s[q + 1]);
            }
        }
    }
}

/// The host tag for one running instance: `app@room`, or just the app.
pub open spec fn tag_of(app_id: Seq<char>, room: Option<Seq<char>>) -> Seq<char> {
    match room {
        Some(r) => app_id + seq!['@'] + r,
        None => app_id,
    }
}

/// Where the first `@` of a tag is.
pub open spec fn first_at(tag: Seq<char>) -> Option<int> {
    if exists|i: int| 0 <= i < tag.len() && tag[i] == '@' {
        Some(choose|i: int| 0 <= i < tag.len() && tag[i] == '@' && forall|j: int| 0 <= j < i ==> tag[j] != '@')
    } else {
        None
    }
}

/// A tag split at its first `@` into (app, room).
pub open spec fn split_tag(tag: Seq<char>) -> (Seq<char>, Option<Seq<char>>) {
    match first_at(tag) {
        Some(i) => (tag.take(i), Some(tag.skip(i + 1))),
        None => (tag, None),
    }
}

/// Separator between an app id and its room in a host instance tag. App ids
/// are slug-safe and room ids never contain it, so the split is unambiguous.
pub const INSTANCE_TAG_SEP: char = '@';

/// The host tag for one running instance of an app.
pub fn instance_tag(app_id: &str, room_id: Option<&str>) -> (t: String)
    ensures
        t@ == tag_of(app_id@, match room_id {
            Some(r) => Some(r@),
            None => None,
        }),
{
    match room_id {
        Some(room) => {
            let mut t = owned(app_id);
            t.push(INSTANCE_TAG_SEP);
            push_text(&mut t, room);
            t
        },
        None => owned(app_id),
    }
}

/// Splits an instance tag back into (app id, room id).
pub fn split_instance_tag(tag: &str) -> (r: (&str, Option<&str>))
    ensures
        r.0@ == split_tag(tag@).0,
        match r.1 {
            Some(room) => split_tag(tag@).1 == Some(room@),
            None => split_tag(tag@).1 is None,
        },
{
    let v = chars_of(tag);
    let mut i: usize = 0;
    while i < v.len()
        invariant
            i <= v@.len(),
            v@ == tag@,
            forall|j: int| 0 <= j < i ==> v@[j] != '@',
        decreases v@.len() - i,
    {
        if v[i] == INSTANCE_TAG_SEP {
            proof {
                let k = first_at(tag@)->Some_0;
                assert(0 <= k < tag@.len() && tag@[k] == '@');
                if k < i {
                    assert(v@[k] != '@');
                }
                if k > i {
                    assert(tag@[i as int] == '@');
                }
            }
            let app = tag.substring_char(0, i);
            let room = tag.substring_char(i + 1, v.len());
            assert(tag@.subrange(0, i as int) =~= tag@.take(i as int));
            assert(tag@.subrange(i + 1, tag@.len() as int) =~= tag@.skip(i + 1));
            return (app, Some(room));
        }
        i = i + 1;
    }
    (tag, None)
}

/// Splitting the tag of an instance gives back its app and room, when the
/// app id holds no `@`.
pub proof fn law_instance_tag_splits_back(app_id: Seq<char>, room: Option<Seq<char>>)
    requires
        forall|i: int| 0 <= i < app_id.len() ==> app_id[i] != '@',
    ensures
        split_tag(tag_of(app_id, room)) == (app_id, room),
{
    let t = tag_of(app_id, room);
    match room {
        Some(r) => {
            assert(t[app_id.len() as int] == '@');
            let k = first_at(t)->Some_0;
            if k < app_id.len() {
                assert(t[k] == app_id[k]);
            }
            if k > app_id.len() {
                assert(t[app_id.len() as int] != '@');
            }
            assert(t.take(app_id.len() as int) =~= app_id);
            assert(t.skip(app_id.len() as int + 1) =~= r);
        },
        None => {
            if exists|i: int| 0 <= i < t.len() && t[i] == '@' {
                let i = choose|i: int| 0 <= i < t.len() && t[i] == '@';
                assert(app_id[i] != '@');
            }
        },
    }
}


impl Default for AppRegistry {
    /// A registry with no apps.
    fn default() -> (r: AppRegistry)
        ensures
            r.view() == Seq::<ManifestView>::empty(),
    {
        let r = AppRegistry { apps: Vec::new() };
        assert(r.view() =~= Seq::<ManifestView>::empty());
        r
    }
}

} // verus!
