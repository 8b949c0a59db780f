//! Ordered maps keyed by text, kept sorted so that walking them gives the
//! same order as a `BTreeMap<String, _>`: by code point, which is the byte
//! order of the UTF-8 keys.

use vstd::prelude::*;

use crate::text::{
    compare_text, lemma_text_lt_irreflexive, lemma_text_lt_transitive, text_lt, TextOrder,
};

verus! {

/// Strictly increasing text keys.
pub open spec fn increasing(ks: Seq<Seq<char>>) -> bool {
    forall|i: int, j: int| 0 <= i < j < ks.len() ==> text_lt(#[trigger] ks[i], #[trigger] ks[j])
}

/// The keys of a run of entries.
pub open spec fn keys_of<V>(es: Seq<(String, V)>) -> Seq<Seq<char>> {
    es.map_values(|e: (String, V)| e.0@)
}

/// Where key `k` sits in a run of entries.
pub open spec fn pos_in<V>(es: Seq<(String, V)>, k: Seq<char>) -> int {
    choose|i: int| 0 <= i < es.len() && es[i].0@ == k
}

/// The map a run of entries with distinct keys holds.
pub open spec fn map_of<V>(es: Seq<(String, V)>) -> Map<Seq<char>, V> {
    Map::new(
        |k: Seq<char>| exists|i: int| 0 <= i < es.len() && es[i].0@ == k,
        |k: Seq<char>| es[pos_in(es, k)].1,
    )
}

proof fn lemma_map_of_at<V>(es: Seq<(String, V)>, i: int)
    requires
        increasing(keys_of(es)),
        0 <= i < es.len(),
    ensures
        map_of(es).contains_key(es[i].0@),
        map_of(es)[es[i].0@] == es[i].1,
        keys_of(es)[i] == es[i].0@,
{
    let k = es[i].0@;
    assert(keys_of(es)[i] == k);
    let j = pos_in(es, k);
    assert(0 <= j < es.len() && es[j].0@ == k);
    if j != i {
        assert(keys_of(es)[j] == k);
        if i < j {
            assert(text_lt(keys_of(es)[i], keys_of(es)[j]));
        } else {
            assert(text_lt(keys_of(es)[j], keys_of(es)[i]));
        }
        lemma_text_lt_irreflexive(k);
    }
}

proof fn lemma_map_of_insert_at<V>(
    before: Seq<(String, V)>,
    after: Seq<(String, V)>,
    i: int,
    k: Seq<char>,
    v: V,
)
    requires
        increasing(keys_of(before)),
        0 <= i <= before.len(),
        forall|j: int| 0 <= j < i ==> text_lt(#[trigger] keys_of(before)[j], k),
        i < before.len() ==> text_lt(k, keys_of(before)[i]),
        after.len() == before.len() + 1,
        after[i].0@ == k,
        after[i].1 == v,
        forall|j: int| 0 <= j < i ==> after[j] == before[j],
        forall|j: int| i < j < after.len() ==> after[j] == before[j - 1],
    ensures
        increasing(keys_of(after)),
        map_of(after) == map_of(before).insert(k, v),
{
    let ks = keys_of(after);
    let bs = keys_of(before);
    assert forall|a: int, b: int| 0 <= a < b < ks.len() implies text_lt(
        #[trigger] ks[a],
        #[trigger] ks[b],
    ) by {
        if b < i {
            assert(ks[a] == bs[a] && ks[b] == bs[b]);
        } else if b == i {
            assert(ks[a] == bs[a]);
        } else if a < i {
            assert(ks[a] == bs[a] && ks[b] == bs[b - 1]);
            if b - 1 == i {
                lemma_text_lt_transitive(bs[a], k, bs[i]);
            } else {
                lemma_text_lt_transitive(bs[a], k, bs[i]);
                lemma_text_lt_transitive(bs[a], bs[i], bs[b - 1]);
            }
        } else if a == i {
            assert(ks[b] == bs[b - 1]);
            if b - 1 > i {
                lemma_text_lt_transitive(k, bs[i], bs[b - 1]);
            }
        } else {
            assert(ks[a] == bs[a - 1] && ks[b] == bs[b - 1]);
        }
    }
    assert forall|key: Seq<char>| #[trigger]
        map_of(after).contains_key(key) == map_of(before).insert(k, v).contains_key(key) by {
        if map_of(before).contains_key(key) {
            let m = choose|m: int| 0 <= m < before.len() && before[m].0@ == key;
            if m < i {
                assert(after[m].0@ == key);
            } else {
                assert(after[m + 1].0@ == key);
            }
        }
        if key == k {
            assert(after[i].0@ == key);
        }
        if map_of(after).contains_key(key) && key != k {
            let m = choose|m: int| 0 <= m < after.len() && after[m].0@ == key;
            if m < i {
                assert(before[m].0@ == key);
            } else if m > i {
                assert(before[m - 1].0@ == key);
            }
        }
    }
    assert forall|key: Seq<char>| #[trigger]
        map_of(after).contains_key(key) implies map_of(after)[key] == map_of(before).insert(
        k,
        v,
    )[key] by {
        let m = choose|m: int| 0 <= m < after.len() && after[m].0@ == key;
        lemma_map_of_at(after, m);
        if m < i {
            lemma_map_of_at(before, m);
            if key == k {
                assert(ks[m] == k && ks[i] == k);
                lemma_text_lt_irreflexive(k);
            }
        } else if m > i {
            lemma_map_of_at(before, m - 1);
            if key == k {
                assert(ks[i] == k && ks[m] == k);
                lemma_text_lt_irreflexive(k);
            }
        }
    }
    assert(map_of(after) =~= map_of(before).insert(k, v));
}

proof fn lemma_map_of_removed_at<V>(before: Seq<(String, V)>, after: Seq<(String, V)>, i: int)
    requires
        increasing(keys_of(before)),
        0 <= i < before.len(),
        after == before.remove(i),
    ensures
        increasing(keys_of(after)),
        map_of(after) == map_of(before).remove(before[i].0@),
{
    let k = before[i].0@;
    let ks = keys_of(after);
    let bs = keys_of(before);
    assert forall|a: int, b: int| 0 <= a < b < ks.len() implies text_lt(
        #[trigger] ks[a],
        #[trigger] ks[b],
    ) by {
        let a2 = if a < i {
            a
        } else {
            a + 1
        };
        let b2 = if b < i {
            b
        } else {
            b + 1
        };
        assert(ks[a] == bs[a2] && ks[b] == bs[b2]);
    }
    assert forall|key: Seq<char>| #[trigger]
        map_of(after).contains_key(key) == map_of(before).remove(k).contains_key(key) by {
        if map_of(after).contains_key(key) {
            let m = choose|m: int| 0 <= m < after.len() && after[m].0@ == key;
            let m2 = if m < i {
                m
            } else {
                m + 1
            };
            assert(before[m2].0@ == key);
            assert(bs[m2] == key && bs[i] == k);
            if key == k {
                if m2 < i {
                    assert(text_lt(bs[m2], bs[i]));
                } else {
                    assert(text_lt(bs[i], bs[m2]));
                }
                lemma_text_lt_irreflexive(k);
            }
        }
        if map_of(before).contains_key(key) && key != k {
            let m = choose|m: int| 0 <= m < before.len() && before[m].0@ == key;
            if m < i {
                assert(after[m].0@ == key);
            } else if m > i {
                assert(after[m - 1].0@ == key);
            }
        }
    }
    assert forall|key: Seq<char>| #[trigger]
        map_of(after).contains_key(key) implies map_of(after)[key] == map_of(before).remove(
        k,
    )[key] by {
        let m = choose|m: int| 0 <= m < after.len() && after[m].0@ == key;
        lemma_map_of_at(after, m);
        if m < i {
            lemma_map_of_at(before, m);
        } else {
            lemma_map_of_at(before, m + 1);
        }
    }
    assert(map_of(after) =~= map_of(before).remove(k));
}

/// A map from text keys to values, ordered by key.
#[derive(Debug)]
pub struct StrMap<V> {
    entries: Vec<(String, V)>,
}

impl<V> StrMap<V> {
    /// The keys, in order.
    pub closed spec fn key_list(&self) -> Seq<Seq<char>> {
        keys_of(self.entries@)
    }

    /// The entries are strictly ordered by key.
    pub closed spec fn wf(&self) -> bool {
        increasing(keys_of(self.entries@))
    }

    #[verifier::type_invariant]
    spec fn ordered(&self) -> bool {
        self.wf()
    }

    /// The map this holds.
    pub closed spec fn view(&self) -> Map<Seq<char>, V> {
        map_of(self.entries@)
    }

    proof fn lemma_at(&self, i: int)
        requires
            self.wf(),
            0 <= i < self.entries@.len(),
        ensures
            self.view().contains_key(self.entries@[i].0@),
            self.view()[self.entries@[i].0@] == self.entries@[i].1,
            self.key_list()[i] == self.entries@[i].0@,
    {
        lemma_map_of_at(self.entries@, i);
    }

    /// The keys are exactly the keys of the map, in increasing order.
    pub proof fn lemma_key_list(&self)
        requires
            self.wf(),
        ensures
            increasing(self.key_list()),
            self.key_list().len() == self.view().dom().len(),
            forall|k: Seq<char>| self.key_list().contains(k) <==> self.view().contains_key(k),
    {
        assert forall|k: Seq<char>| self.key_list().contains(k) <==> self.view().contains_key(
            k,
        ) by {
            if self.view().contains_key(k) {
                let i = choose|i: int| 0 <= i < self.entries@.len() && self.entries@[i].0@ == k;
                assert(self.key_list()[i] == k);
            }
            if self.key_list().contains(k) {
                let i = choose|i: int| 0 <= i < self.key_list().len() && self.key_list()[i] == k;
                assert(self.entries@[i].0@ == k);
            }
        }
        lemma_increasing_no_duplicates(self.key_list());
        self.key_list().unique_seq_to_set();
        assert(self.key_list().to_set() =~= self.view().dom());
    }

    /// The key order and the map of a well-formed map, in one call.
    pub fn facts(&self)
        ensures
            increasing(self.key_list()),
            self.key_list().len() == self.view().dom().len(),
            forall|k: Seq<char>| self.key_list().contains(k) <==> self.view().contains_key(k),
    {
        proof {
            use_type_invariant(self);
            self.lemma_key_list();
        }
    }

    pub fn new() -> (m: StrMap<V>)
        ensures
            m.view() == Map::<Seq<char>, V>::empty(),
            m.key_list() == Seq::<Seq<char>>::empty(),
    {
        let m = StrMap { entries: Vec::new() };
        assert(m.view() =~= Map::<Seq<char>, V>::empty());
        assert(m.key_list() =~= Seq::<Seq<char>>::empty());
        m
    }

    fn find(&self, k: &str) -> (r: Option<usize>)
        ensures
            match r {
                Some(i) => i < self.entries@.len() && self.entries@[i as int].0@ == k@,
                None => !self.view().contains_key(k@),
            },
    {
        let mut i: usize = 0;
        while i < self.entries.len()
            invariant
                i <= self.entries@.len(),
                forall|j: int| 0 <= j < i ==> self.entries@[j].0@ != k@,
            decreases self.entries@.len() - i,
        {
            match compare_text(self.entries[i].0.as_str(), k) {
                TextOrder::Equal => {
                    return Some(i);
                },
                _ => {},
            }
            i = i + 1;
        }
        None
    }

    pub fn contains_key(&self, k: &str) -> (r: bool)
        ensures
            r == self.view().contains_key(k@),
    {
        proof {
            use_type_invariant(self);
        }
        match self.find(k) {
            Some(i) => {
                proof {
                    self.lemma_at(i as int);
                }
                true
            },
            None => false,
        }
    }

    pub fn get(&self, k: &str) -> (r: Option<&V>)
        ensures
            match r {
                Some(v) => self.view().contains_key(k@) && *v == self.view()[k@],
                None => !self.view().contains_key(k@),
            },
    {
        proof {
            use_type_invariant(self);
        }
        match self.find(k) {
            Some(i) => {
                proof {
                    self.lemma_at(i as int);
                }
                Some(&self.entries[i].1)
            },
            None => None,
        }
    }

    pub fn len(&self) -> (n: usize)
        ensures
            n == self.view().dom().len(),
    {
        proof {
            use_type_invariant(self);
            self.lemma_key_list();
        }
        self.entries.len()
    }

    pub fn is_empty(&self) -> (r: bool)
        ensures
            r == self.view().is_empty(),
            r == (self.view() == Map::<Seq<char>, V>::empty()),
    {
        proof {
            use_type_invariant(self);
            self.lemma_key_list();
            if self.entries@.len() > 0 {
                self.lemma_at(0);
            } else {
                assert(self.view() =~= Map::<Seq<char>, V>::empty());
            }
        }
        self.entries.len() == 0
    }

    pub fn clear(&mut self)
        ensures
            final(self).view() == Map::<Seq<char>, V>::empty(),
    {
        self.entries = Vec::new();
        assert(self.view() =~= Map::<Seq<char>, V>::empty());
    }

    /// Sets the value for `k`, replacing any earlier one.
    pub fn insert(&mut self, k: String, v: V)
        ensures
            final(self).view() == old(self).view().insert(k@, v),
    {
        proof {
            use_type_invariant(&*self);
        }
        let mut es: Vec<(String, V)> = Vec::new();
        std::mem::swap(&mut es, &mut self.entries);
        let ghost old_es = es@;
        assert(old_es == old(self).entries@);
        let ghost kk = k@;
        let mut i: usize = 0;
        while i < es.len()
            invariant
                es@ == old_es,
                old_es == old(self).entries@,
                increasing(keys_of(old_es)),
                k@ == kk,
                i <= es@.len(),
                forall|j: int| 0 <= j < i ==> text_lt(#[trigger] keys_of(old_es)[j], kk),
            decreases es@.len() - i,
        {
            let ord = compare_text(es[i].0.as_str(), k.as_str());
            match ord {
                TextOrder::Less => {
                    assert(keys_of(old_es)[i as int] == old_es[i as int].0@);
                },
                TextOrder::Equal => {
                    proof {
                        lemma_map_of_at(old_es, i as int);
                    }
                    let old_entry = es.remove(i);
                    proof {
                        lemma_map_of_removed_at(old_es, es@, i as int);
                    }
                    let ghost mid = es@;
                    es.insert(i, (k, v));
                    proof {
                        assert forall|j: int| 0 <= j < i implies text_lt(#[trigger] keys_of(mid)[j], kk) by {
                            assert(keys_of(mid)[j] == keys_of(old_es)[j]);
                        }
                        if i < mid.len() {
                            assert(keys_of(mid)[i as int] == keys_of(old_es)[i + 1]);
                            assert(text_lt(keys_of(old_es)[i as int], keys_of(old_es)[i + 1]));
                        }
                        lemma_map_of_insert_at(mid, es@, i as int, kk, v);
                        assert(map_of(es@) =~= map_of(old_es).insert(kk, v));
                    }
                    self.entries = es;
                    return ;
                },
                TextOrder::Greater => {
                    es.insert(i, (k, v));
                    proof {
                        lemma_map_of_insert_at(old_es, es@, i as int, kk, v);
                    }
                    self.entries = es;
                    return ;
                },
            }
            i = i + 1;
        }
        let n = es.len();
        es.insert(n, (k, v));
        proof {
            lemma_map_of_insert_at(old_es, es@, n as int, kk, v);
        }
        self.entries = es;
    }

    /// Drops the entry for `k`, handing back its value.
    pub fn remove(&mut self, k: &str) -> (r: Option<V>)
        ensures
            final(self).view() == old(self).view().remove(k@),
            match r {
                Some(v) => old(self).view().contains_key(k@) && v == old(self).view()[k@],
                None => !old(self).view().contains_key(k@),
            },
    {
        proof {
            use_type_invariant(&*self);
        }
        match self.find(k) {
            None => {
                assert(self.view() =~= old(self).view().remove(k@));
                None
            },
            Some(i) => {
                proof {
                    self.lemma_at(i as int);
                }
                let mut es: Vec<(String, V)> = Vec::new();
                std::mem::swap(&mut es, &mut self.entries);
                let ghost old_es = es@;
                let e = es.remove(i);
                proof {
                    lemma_map_of_removed_at(old_es, es@, i as int);
                }
                self.entries = es;
                Some(e.1)
            },
        }
    }

    /// The keys, in increasing order.
    pub fn keys(&self) -> (r: Vec<String>)
        ensures
            r@.map_values(|s: String| s@) == self.key_list(),
    {
        let mut r: Vec<String> = Vec::new();
        let mut i: usize = 0;
        while i < self.entries.len()
            invariant
                i <= self.entries@.len(),
                r@.map_values(|s: String| s@) == self.key_list().take(i as int),
            decreases self.entries@.len() - i,
        {
            let ghost old_r = r@;
            let kc = self.entries[i].0.clone();
            assert(kc@ == self.key_list()[i as int]);
            r.push(kc);
            assert(r@ == old_r.push(kc));
            assert(self.key_list().take(i + 1) =~= self.key_list().take(i as int).push(kc@));
            i = i + 1;
        }
        assert(self.key_list().take(i as int) =~= self.key_list());
        r
    }

    /// The key at position `i` of the key order.
    pub fn key_at(&self, i: usize) -> (r: &String)
        requires
            i < self.key_list().len(),
        ensures
            r@ == self.key_list()[i as int],
            self.view().contains_key(r@),
    {
        proof {
            use_type_invariant(self);
            self.lemma_at(i as int);
        }
        &self.entries[i].0
    }

    /// The value at position `i` of the key order.
    pub fn value_at(&self, i: usize) -> (r: &V)
        requires
            i < self.key_list().len(),
        ensures
            *r == self.view()[self.key_list()[i as int]],
    {
        proof {
            use_type_invariant(self);
            self.lemma_at(i as int);
        }
        &self.entries[i].1
    }

    /// How many entries there are (the length of the key order).
    pub fn count(&self) -> (n: usize)
        ensures
            n == self.key_list().len(),
    {
        self.entries.len()
    }
}

impl<V> StrMap<V> {
    /// Keeps only the entries whose key is one of `keep`.
    pub fn retain_keys(&mut self, keep: &Vec<String>)
        ensures
            final(self).view() == old(self).view().restrict(keep@.map_values(|s: String| s@).to_set()),
    {
        proof {
            use_type_invariant(&*self);
        }
        let ghost ks = keep@.map_values(|s: String| s@);
        let mut old_es: Vec<(String, V)> = Vec::new();
        std::mem::swap(&mut old_es, &mut self.entries);
        let ghost oes = old_es@;
        let ghost okeys = keys_of(oes);
        let mut es: Vec<(String, V)> = Vec::new();
        let n = old_es.len();
        let mut i: usize = 0;
        while old_es.len() > 0
            invariant
                n == oes.len(),
                i + old_es@.len() == n,
                old_es@ == oes.skip(i as int),
                increasing(okeys),
                okeys == keys_of(oes),
                ks == keep@.map_values(|s: String| s@),
                increasing(keys_of(es@)),
                forall|q: int| 0 <= q < es@.len() ==> exists|t: int| 0 <= t < i && (#[trigger] es@[q]) == oes[t],
                forall|t: int| 0 <= t < i && ks.contains(#[trigger] oes[t].0@) ==> es@.contains(oes[t]),
                forall|q: int| 0 <= q < es@.len() ==> ks.contains((#[trigger] es@[q]).0@),
            decreases old_es@.len(),
        {
            let e = old_es.remove(0);
            assert(e == oes[i as int]);
            assert(old_es@ =~= oes.skip(i + 1));
            let mut found = false;
            let mut j: usize = 0;
            while j < keep.len()
                invariant
                    j <= keep@.len(),
                    ks == keep@.map_values(|s: String| s@),
                    found == exists|t: int| 0 <= t < j && ks[t] == e.0@,
                decreases keep@.len() - j,
            {
                assert(ks[j as int] == keep@[j as int]@);
                match compare_text(keep[j].as_str(), e.0.as_str()) {
                    TextOrder::Equal => {
                        found = true;
                        assert(ks[j as int] == e.0@);
                    },
                    _ => {},
                }
                assert(found == exists|t: int| 0 <= t < j + 1 && ks[t] == e.0@) by {
                    if exists|t: int| 0 <= t < j + 1 && ks[t] == e.0@ {
                        let t = choose|t: int| 0 <= t < j + 1 && ks[t] == e.0@;
                        if t < j {
                            assert(exists|t2: int| 0 <= t2 < j && ks[t2] == e.0@);
                        }
                    }
                }
                j = j + 1;
            }
            let ghost old_list = es@;
            if found {
                proof {
                    assert forall|q: int| 0 <= q < old_list.len() implies text_lt(#[trigger] keys_of(old_list)[q], e.0@) by {
                        let t = choose|t: int| 0 <= t < i && old_list[q] == oes[t];
                        assert(okeys[t] == oes[t].0@);
                        assert(okeys[i as int] == e.0@);
                        assert(text_lt(okeys[t], okeys[i as int]));
                    }
                }
                es.push(e);
                proof {
                    assert forall|a: int, b: int| 0 <= a < b < es@.len() implies text_lt(#[trigger] keys_of(es@)[a], #[trigger] keys_of(es@)[b]) by {
                        if b == es@.len() - 1 {
                            assert(keys_of(es@)[a] == keys_of(old_list)[a]);
                        } else {
                            assert(keys_of(es@)[a] == keys_of(old_list)[a]);
                            assert(keys_of(es@)[b] == keys_of(old_list)[b]);
                        }
                    }
                    assert forall|q: int| 0 <= q < es@.len() implies exists|t: int| 0 <= t < i + 1 && (#[trigger] es@[q]) == oes[t] by {
                        if q < old_list.len() {
                            assert(es@[q] == old_list[q]);
                        } else {
                            assert(es@[q] == oes[i as int]);
                        }
                    }
                    assert forall|t: int| 0 <= t < i + 1 && ks.contains(#[trigger] oes[t].0@) implies es@.contains(oes[t]) by {
                        if t < i {
                            let q = choose|q: int| 0 <= q < old_list.len() && old_list[q] == oes[t];
                            assert(es@[q] == oes[t]);
                        } else {
                            assert(es@[es@.len() - 1] == oes[t]);
                        }
                    }
                    assert forall|q: int| 0 <= q < es@.len() implies ks.contains((#[trigger] es@[q]).0@) by {
                        if q < old_list.len() {
                            assert(es@[q] == old_list[q]);
                        } else {
                            let t = choose|t: int| 0 <= t < keep@.len() && ks[t] == e.0@;
                            assert(ks[t] == e.0@);
                        }
                    }
                }
            } else {
                proof {
                    assert forall|t: int| 0 <= t < i + 1 && ks.contains(#[trigger] oes[t].0@) implies es@.contains(oes[t]) by {
                        if t == i {
                            let w = choose|w: int| 0 <= w < ks.len() && ks[w] == oes[t].0@;
                            assert(ks[w] == e.0@);
                        }
                    }
                }
            }
            i = i + 1;
        }
        proof {
            let m = map_of(es@);
            let target = map_of(oes).restrict(ks.to_set());
            assert forall|k: Seq<char>| #[trigger] m.contains_key(k) == target.contains_key(k) by {
                if m.contains_key(k) {
                    let q = choose|q: int| 0 <= q < es@.len() && es@[q].0@ == k;
                    let t = choose|t: int| 0 <= t < i && es@[q] == oes[t];
                    assert(oes[t].0@ == k);
                    assert(ks.contains(k));
                }
                if target.contains_key(k) {
                    let t = choose|t: int| 0 <= t < oes.len() && oes[t].0@ == k;
                    assert(ks.contains(oes[t].0@));
                    assert(es@.contains(oes[t]));
                    let q = choose|q: int| 0 <= q < es@.len() && es@[q] == oes[t];
                    assert(es@[q].0@ == k);
                }
            }
            assert forall|k: Seq<char>| #[trigger] m.contains_key(k) implies m[k] == target[k] by {
                let q = choose|q: int| 0 <= q < es@.len() && es@[q].0@ == k;
                lemma_map_of_at(es@, q);
                let t = choose|t: int| 0 <= t < i && es@[q] == oes[t];
                lemma_map_of_at(oes, t);
            }
            assert(m =~= target);
        }
        self.entries = es;
    }
}

impl StrMap<String> {
    /// A copy holding the same entries.
    pub fn duplicate(&self) -> (r: StrMap<String>)
        ensures
            r.view() == self.view(),
            r.key_list() == self.key_list(),
    {
        proof {
            use_type_invariant(self);
        }
        let mut es: Vec<(String, String)> = Vec::new();
        let mut i: usize = 0;
        while i < self.entries.len()
            invariant
                i <= self.entries@.len(),
                es@ == self.entries@.take(i as int),
            decreases self.entries@.len() - i,
        {
            let k = self.entries[i].0.clone();
            let v = self.entries[i].1.clone();
            es.push((k, v));
            assert(es@ =~= self.entries@.take(i + 1));
            i = i + 1;
        }
        assert(es@ =~= self.entries@);
        StrMap { entries: es }
    }
}

impl Clone for StrMap<String> {
    fn clone(&self) -> (r: Self)
        ensures
            r.view() == self.view(),
            r.key_list() == self.key_list(),
    {
        self.duplicate()
    }
}

impl<V> PairMap<V> {
    /// Whether app `a` has any entry.
    pub fn has_app(&self, a: &str) -> (r: bool)
        ensures
            r == exists|k: Seq<char>| self.view().contains_key((a@, k)),
    {
        match self.outer.get(a) {
            None => false,
            Some(inner) => {
                let empty = inner.is_empty();
                inner.facts();
                proof {
                    if !empty {
                        let k = choose|k: Seq<char>| inner.view().contains_key(k);
                        assert(self.view().contains_key((a@, k)));
                    } else {
                        assert forall|k: Seq<char>| !self.view().contains_key((a@, k)) by {
                            assert(!inner.view().contains_key(k));
                        }
                    }
                }
                !empty
            },
        }
    }
}

/// Strictly increasing keys hold no repeats.
pub proof fn lemma_increasing_no_duplicates(ks: Seq<Seq<char>>)
    requires
        increasing(ks),
    ensures
        ks.no_duplicates(),
{
    assert forall|i: int, j: int| 0 <= i < ks.len() && 0 <= j < ks.len() && i != j implies ks[i]
        != ks[j] by {
        if i < j {
            assert(text_lt(ks[i], ks[j]));
        } else {
            assert(text_lt(ks[j], ks[i]));
        }
        lemma_text_lt_irreflexive(ks[i]);
    }
}

/// Strict order on pairs of texts: by the first, then by the second.
pub open spec fn pair_lt(a: (Seq<char>, Seq<char>), b: (Seq<char>, Seq<char>)) -> bool {
    text_lt(a.0, b.0) || (a.0 == b.0 && text_lt(a.1, b.1))
}

/// Strictly increasing pairs.
pub open spec fn pairs_increasing(ps: Seq<(Seq<char>, Seq<char>)>) -> bool {
    forall|i: int, j: int| 0 <= i < j < ps.len() ==> pair_lt(#[trigger] ps[i], #[trigger] ps[j])
}

/// A map keyed by (app, id) pairs, held as one ordered map per app, the
/// way a `BTreeMap<String, BTreeMap<String, _>>` is.
#[derive(Debug)]
pub struct PairMap<V> {
    outer: StrMap<StrMap<V>>,
}

impl<V> PairMap<V> {
    /// The map this holds.
    pub closed spec fn view(&self) -> Map<(Seq<char>, Seq<char>), V> {
        Map::new(
            |p: (Seq<char>, Seq<char>)|
                self.outer.view().contains_key(p.0) && self.outer.view()[p.0].view().contains_key(
                    p.1,
                ),
            |p: (Seq<char>, Seq<char>)| self.outer.view()[p.0].view()[p.1],
        )
    }

    pub fn new() -> (m: PairMap<V>)
        ensures
            m.view() == Map::<(Seq<char>, Seq<char>), V>::empty(),
    {
        let m = PairMap { outer: StrMap::new() };
        assert(m.view() =~= Map::<(Seq<char>, Seq<char>), V>::empty());
        m
    }

    pub fn get(&self, a: &str, k: &str) -> (r: Option<&V>)
        ensures
            match r {
                Some(v) => self.view().contains_key((a@, k@)) && *v == self.view()[(a@, k@)],
                None => !self.view().contains_key((a@, k@)),
            },
    {
        match self.outer.get(a) {
            None => None,
            Some(inner) => inner.get(k),
        }
    }

    pub fn contains_key(&self, a: &str, k: &str) -> (r: bool)
        ensures
            r == self.view().contains_key((a@, k@)),
    {
        match self.get(a, k) {
            Some(_) => true,
            None => false,
        }
    }

    pub fn clear(&mut self)
        ensures
            final(self).view() == Map::<(Seq<char>, Seq<char>), V>::empty(),
    {
        self.outer.clear();
        assert(self.view() =~= Map::<(Seq<char>, Seq<char>), V>::empty());
    }

    /// Sets the value for `(a, k)`.
    pub fn insert(&mut self, a: &str, k: &str, v: V)
        ensures
            final(self).view() == old(self).view().insert((a@, k@), v),
    {
        let mut inner = match self.outer.remove(a) {
            Some(m) => m,
            None => StrMap::new(),
        };
        let ghost before_inner = inner.view();
        inner.insert(crate::text::owned(k), v);
        self.outer.insert(crate::text::owned(a), inner);
        assert(self.view() =~= old(self).view().insert((a@, k@), v));
    }

    /// Drops the entry for `(a, k)`, keeping `a`'s (possibly empty) map.
    pub fn remove(&mut self, a: &str, k: &str) -> (r: Option<V>)
        ensures
            final(self).view() == old(self).view().remove((a@, k@)),
            match r {
                Some(v) => old(self).view().contains_key((a@, k@)) && v == old(self).view()[(
                    a@,
                    k@,
                )],
                None => !old(self).view().contains_key((a@, k@)),
            },
    {
        match self.outer.remove(a) {
            None => {
                assert(self.view() =~= old(self).view().remove((a@, k@)));
                None
            },
            Some(mut inner) => {
                let r = inner.remove(k);
                self.outer.insert(crate::text::owned(a), inner);
                assert(self.view() =~= old(self).view().remove((a@, k@)));
                r
            },
        }
    }

    /// Drops every entry of app `a`.
    pub fn remove_app(&mut self, a: &str)
        ensures
            forall|p: (Seq<char>, Seq<char>)|
                #![trigger final(self).view().contains_key(p)]
                final(self).view().contains_key(p) == (old(self).view().contains_key(p) && p.0
                    != a@),
            forall|p: (Seq<char>, Seq<char>)|
                #![trigger final(self).view()[p]]
                final(self).view().contains_key(p) ==> final(self).view()[p] == old(
                    self,
                ).view()[p],
    {
        let _ = self.outer.remove(a);
    }
}

/// The (app, id) texts of a run of key pairs.
pub open spec fn pair_texts(v: Seq<(String, String)>) -> Seq<(Seq<char>, Seq<char>)> {
    v.map_values(|e: (String, String)| (e.0@, e.1@))
}

/// Moves the entries of `inner` that are at most `now` out, appending their
/// keys (under `app`) to `out` in key order; returns the rest.
fn split_inner(app: &String, inner: &StrMap<u64>, now: u64, out: &mut Vec<(String, String)>) -> (survivors: StrMap<u64>)
    ensures
        forall|k: Seq<char>| #[trigger]
            survivors.view().contains_key(k) <==> (inner.view().contains_key(k) && inner.view()[k] > now),
        forall|k: Seq<char>| #[trigger]
            survivors.view().contains_key(k) ==> survivors.view()[k] == inner.view()[k],
        final(out)@.len() >= old(out)@.len(),
        forall|q: int| 0 <= q < old(out)@.len() ==> #[trigger] pair_texts(final(out)@)[q] == pair_texts(old(out)@)[q],
        forall|q: int| old(out)@.len() <= q < final(out)@.len() ==> {
            let e = #[trigger] pair_texts(final(out)@)[q];
            e.0 == app@ && inner.view().contains_key(e.1) && inner.view()[e.1] <= now
        },
        forall|k: Seq<char>| #[trigger] inner.view().contains_key(k) && inner.view()[k] <= now ==>
            exists|q: int| old(out)@.len() <= q < final(out)@.len() && pair_texts(final(out)@)[q] == (app@, k),
        forall|q1: int, q2: int| old(out)@.len() <= q1 < q2 < final(out)@.len() ==>
            text_lt((#[trigger] pair_texts(final(out)@)[q1]).1, (#[trigger] pair_texts(final(out)@)[q2]).1),
{
    let ghost start = old(out)@.len();
    let m = inner.count();
    let mut survivors: StrMap<u64> = StrMap::new();
    let mut j: usize = 0;
    inner.facts();
    while j < m
        invariant
            m == inner.key_list().len(),
            increasing(inner.key_list()),
            forall|k: Seq<char>| inner.key_list().contains(k) <==> inner.view().contains_key(k),
            j <= m,
            start == old(out)@.len(),
            out@.len() >= start,
            forall|k: Seq<char>| #[trigger]
                survivors.view().contains_key(k) <==> (inner.key_list().take(j as int).contains(k)
                    && inner.view()[k] > now),
            forall|k: Seq<char>| #[trigger]
                survivors.view().contains_key(k) ==> survivors.view()[k] == inner.view()[k],
            forall|q: int| 0 <= q < start ==> #[trigger] pair_texts(out@)[q] == pair_texts(old(out)@)[q],
            forall|q: int| start <= q < out@.len() ==> {
                let e = #[trigger] pair_texts(out@)[q];
                e.0 == app@ && inner.view().contains_key(e.1) && inner.view()[e.1] <= now
                    && exists|t: int| 0 <= t < j && inner.key_list()[t] == e.1
            },
            forall|k: Seq<char>| #[trigger] inner.key_list().take(j as int).contains(k) && inner.view()[k] <= now ==>
                exists|q: int| start <= q < out@.len() && pair_texts(out@)[q] == (app@, k),
            forall|q1: int, q2: int| start <= q1 < q2 < out@.len() ==>
                text_lt((#[trigger] pair_texts(out@)[q1]).1, (#[trigger] pair_texts(out@)[q2]).1),
        decreases m - j,
    {
        let key = inner.key_at(j);
        let val = *inner.value_at(j);
        let ghost kj = key@;
        let ghost old_out = out@;
        let ghost t0 = inner.key_list().take(j as int);
        let ghost t1 = inner.key_list().take(j + 1);
        assert(t1 =~= t0.push(kj));
        assert(inner.key_list()[j as int] == kj);
        assert forall|k: Seq<char>| t1.contains(k) == (t0.contains(k) || k == kj) by {
            if t1.contains(k) {
                let q = choose|q: int| 0 <= q < t1.len() && t1[q] == k;
                if q < j {
                    assert(t0[q] == k);
                }
            }
            if t0.contains(k) {
                let q = choose|q: int| 0 <= q < t0.len() && t0[q] == k;
                assert(t1[q] == k);
            }
            if k == kj {
                assert(t1[j as int] == k);
            }
        }
        if val > now {
            survivors.insert(key.clone(), val);
        } else {
            out.push((app.clone(), key.clone()));
            assert(pair_texts(out@) =~= pair_texts(old_out).push((app@, kj)));
            assert forall|q1: int, q2: int| start <= q1 < q2 < out@.len() implies
                text_lt((#[trigger] pair_texts(out@)[q1]).1, (#[trigger] pair_texts(out@)[q2]).1) by {
                if q2 == out@.len() - 1 {
                    let e = pair_texts(out@)[q1];
                    let t = choose|t: int| 0 <= t < j && inner.key_list()[t] == e.1;
                    assert(text_lt(inner.key_list()[t], inner.key_list()[j as int]));
                }
            }
        }
        assert forall|k: Seq<char>| #[trigger] inner.key_list().take(j + 1).contains(k) && inner.view()[k] <= now implies
            exists|q: int| start <= q < out@.len() && pair_texts(out@)[q] == (app@, k) by {
            if k == kj {
                assert(pair_texts(out@)[out@.len() - 1] == (app@, k));
            } else {
                assert(inner.key_list().take(j as int).contains(k));
                let q = choose|q: int| start <= q < old_out.len() && pair_texts(old_out)[q] == (app@, k);
                assert(pair_texts(out@)[q] == (app@, k));
            }
        }
        j = j + 1;
    }
    assert(inner.key_list().take(m as int) =~= inner.key_list());
    assert forall|k: Seq<char>| #[trigger] inner.view().contains_key(k) implies inner.key_list().take(
        m as int,
    ).contains(k) by {
        assert(inner.key_list().contains(k));
    }
    survivors
}

impl PairMap<u64> {
    /// Drops every entry whose value is at most `now`, handing back the
    /// dropped keys in key order. Apps left with no entries are dropped.
    pub fn split_expired(&mut self, now: u64) -> (r: Vec<(String, String)>)
        ensures
            forall|p: (Seq<char>, Seq<char>)| #[trigger] final(self).view().contains_key(p) <==> (old(self).view().contains_key(p) && old(self).view()[p] > now),
            forall|p: (Seq<char>, Seq<char>)| #[trigger] final(self).view().contains_key(p) ==> final(self).view()[p] == old(self).view()[p],
            pairs_increasing(pair_texts(r@)),
            forall|p: (Seq<char>, Seq<char>)|
                #[trigger] pair_texts(r@).contains(p) <==> (old(self).view().contains_key(p) && old(self).view()[p] <= now),
    {
        let ghost old_view = self.view();
        let mut kept: StrMap<StrMap<u64>> = StrMap::new();
        let mut out: Vec<(String, String)> = Vec::new();
        let n = self.outer.count();
        let mut i: usize = 0;
        self.outer.facts();
        while i < n
            invariant
                self.view() == old_view,
                n == self.outer.key_list().len(),
                increasing(self.outer.key_list()),
                forall|a: Seq<char>| self.outer.key_list().contains(a) <==> self.outer.view().contains_key(a),
                i <= n,
                forall|a: Seq<char>| #[trigger]
                    kept.view().contains_key(a) ==> exists|k: Seq<char>| kept.view()[a].view().contains_key(k),
                forall|a: Seq<char>| #[trigger]
                    kept.view().contains_key(a) ==> self.outer.key_list().take(i as int).contains(a),
                forall|a: Seq<char>, k: Seq<char>|
                    (kept.view().contains_key(a) && #[trigger] kept.view()[a].view().contains_key(k)) ==> (
                    old_view.contains_key((a, k)) && old_view[(a, k)] > now && kept.view()[a].view()[k] == old_view[(a, k)]),
                forall|a: Seq<char>, k: Seq<char>|
                    #[trigger] old_view.contains_key((a, k)) && old_view[(a, k)] > now && self.outer.key_list().take(i as int).contains(a) ==>
                    kept.view().contains_key(a) && kept.view()[a].view().contains_key(k),
                pairs_increasing(pair_texts(out@)),
                forall|q: int| 0 <= q < out@.len() ==> self.outer.key_list().take(i as int).contains((#[trigger] pair_texts(out@)[q]).0),
                forall|p: (Seq<char>, Seq<char>)|
                    #[trigger] pair_texts(out@).contains(p) <==> (
                    old_view.contains_key(p) && old_view[p] <= now && self.outer.key_list().take(i as int).contains(p.0)),
            decreases n - i,
        {
            let app = self.outer.key_at(i);
            let inner = self.outer.value_at(i);
            let ghost ai = app@;
            let ghost old_out = out@;
            let ghost keys = self.outer.key_list();
            let ghost ks0 = keys.take(i as int);
            let ghost ks1 = keys.take(i + 1);
            proof {
                assert(ks1 =~= ks0.push(ai));
                assert(keys[i as int] == ai);
                assert forall|a: Seq<char>| ks1.contains(a) == (ks0.contains(a) || a == ai) by {
                    if ks1.contains(a) {
                        let q = choose|q: int| 0 <= q < ks1.len() && ks1[q] == a;
                        if q < i {
                            assert(ks0[q] == a);
                        }
                    }
                    if ks0.contains(a) {
                        let q = choose|q: int| 0 <= q < ks0.len() && ks0[q] == a;
                        assert(ks1[q] == a);
                    }
                    if a == ai {
                        assert(ks1[i as int] == a);
                    }
                }
                if ks0.contains(ai) {
                    let t = choose|t: int| 0 <= t < ks0.len() && ks0[t] == ai;
                    assert(keys[t] == ai);
                    assert(text_lt(keys[t], keys[i as int]));
                    crate::text::lemma_text_lt_irreflexive(ai);
                }
                assert(!ks0.contains(ai));
                assert forall|k: Seq<char>| #[trigger] inner.view().contains_key(k) == old_view.contains_key((ai, k)) by {}
            }
            let survivors = split_inner(app, inner, now, &mut out);
            proof {
                assert forall|q1: int, q2: int| 0 <= q1 < q2 < out@.len() implies
                    pair_lt(#[trigger] pair_texts(out@)[q1], #[trigger] pair_texts(out@)[q2]) by {
                    if q2 >= old_out.len() && q1 < old_out.len() {
                        let e = pair_texts(out@)[q1];
                        assert(e == pair_texts(old_out)[q1]);
                        assert(ks0.contains(e.0));
                        let t = choose|t: int| 0 <= t < ks0.len() && ks0[t] == e.0;
                        assert(keys[t] == e.0);
                        assert(text_lt(keys[t], keys[i as int]));
                    } else if q2 < old_out.len() {
                        assert(pair_texts(out@)[q1] == pair_texts(old_out)[q1]);
                        assert(pair_texts(out@)[q2] == pair_texts(old_out)[q2]);
                    }
                }
                assert forall|q: int| 0 <= q < out@.len() implies ks1.contains((#[trigger] pair_texts(out@)[q]).0) by {
                    if q < old_out.len() {
                        assert(pair_texts(out@)[q] == pair_texts(old_out)[q]);
                    }
                }
                assert forall|p: (Seq<char>, Seq<char>)|
                    #[trigger] pair_texts(out@).contains(p) <==> (
                    old_view.contains_key(p) && old_view[p] <= now && ks1.contains(p.0)) by {
                    if pair_texts(out@).contains(p) {
                        let q = choose|q: int| 0 <= q < pair_texts(out@).len() && pair_texts(out@)[q] == p;
                        if q < old_out.len() {
                            assert(pair_texts(old_out)[q] == p);
                            assert(pair_texts(old_out).contains(p));
                        } else {
                            assert(inner.view().contains_key(p.1));
                        }
                    }
                    if old_view.contains_key(p) && old_view[p] <= now && ks1.contains(p.0) {
                        if p.0 == ai {
                            assert(inner.view().contains_key(p.1));
                            let q = choose|q: int| old_out.len() <= q < out@.len() && pair_texts(out@)[q] == (ai, p.1);
                            assert(pair_texts(out@)[q] == p);
                        } else {
                            assert(ks0.contains(p.0));
                            assert(pair_texts(old_out).contains(p));
                            let q = choose|q: int| 0 <= q < old_out.len() && pair_texts(old_out)[q] == p;
                            assert(pair_texts(out@)[q] == p);
                        }
                    }
                }
            }
            let ghost old_kept = kept;
            survivors.facts();
            let nonempty = survivors.count() > 0;
            if nonempty {
                proof {
                    assert(survivors.key_list().contains(survivors.key_list()[0]));
                }
                kept.insert(app.clone(), survivors);
            }
            proof {
                assert forall|a: Seq<char>| #[trigger] kept.view().contains_key(a) implies ks1.contains(a) by {}
                assert forall|a: Seq<char>, k: Seq<char>|
                    (kept.view().contains_key(a) && #[trigger] kept.view()[a].view().contains_key(k)) implies (
                    old_view.contains_key((a, k)) && old_view[(a, k)] > now && kept.view()[a].view()[k] == old_view[(a, k)]) by {
                    if a == ai {
                        assert(inner.view().contains_key(k));
                    }
                }
                assert forall|a: Seq<char>, k: Seq<char>|
                    #[trigger] old_view.contains_key((a, k)) && old_view[(a, k)] > now && ks1.contains(a) implies
                    kept.view().contains_key(a) && kept.view()[a].view().contains_key(k) by {
                    if a == ai {
                        assert(inner.view().contains_key(k));
                        assert(survivors.view().contains_key(k));
                        if !nonempty {
                            assert(survivors.key_list().contains(k));
                        }
                    }
                }
            }
            i = i + 1;
        }
        proof {
            let keys = self.outer.key_list();
            assert(keys.take(n as int) =~= keys);
            assert forall|p: (Seq<char>, Seq<char>)| #[trigger] old_view.contains_key(p) && old_view[p] > now implies
                kept.view().contains_key(p.0) && kept.view()[p.0].view().contains_key(p.1) by {
                assert(self.outer.view().contains_key(p.0));
                assert(keys.contains(p.0));
                assert(old_view.contains_key((p.0, p.1)));
            }
        }
        self.outer = kept;
        proof {
            assert forall|p: (Seq<char>, Seq<char>)| #[trigger] self.view().contains_key(p) <==> (old_view.contains_key(p) && old_view[p] > now) by {
                if self.view().contains_key(p) {
                    assert(kept.view()[p.0].view().contains_key(p.1));
                }
            }
            assert forall|p: (Seq<char>, Seq<char>)| #[trigger] self.view().contains_key(p) implies self.view()[p] == old_view[p] by {
                assert(kept.view()[p.0].view().contains_key(p.1));
            }
        }
        out
    }
}


/// The map a run of (app, id, value) entries gives, later entries winning.
pub open spec fn triples_map<V>(es: Seq<(Seq<char>, Seq<char>, V)>) -> Map<(Seq<char>, Seq<char>), V>
    decreases es.len(),
{
    if es.len() == 0 {
        Map::empty()
    } else {
        triples_map(es.drop_last()).insert((es.last().0, es.last().1), es.last().2)
    }
}

/// The texts of a run of (app, id, value) entries.
pub open spec fn triple_views<V>(v: Seq<(String, String, V)>) -> Seq<(Seq<char>, Seq<char>, V)> {
    v.map_values(|e: (String, String, V)| (e.0@, e.1@, e.2))
}

/// The entries of one app's map, keyed by (app, id).
pub open spec fn app_entries<V>(a: Seq<char>, m: Map<Seq<char>, V>, ks: Seq<Seq<char>>) -> Map<(Seq<char>, Seq<char>), V> {
    Map::new(|p: (Seq<char>, Seq<char>)| p.0 == a && ks.contains(p.1) && m.contains_key(p.1), |p: (Seq<char>, Seq<char>)| m[p.1])
}

/// Appends the entries of `inner` under app `a`, in key order.
fn push_app_entries<V: Copy>(a: &String, inner: &StrMap<V>, out: &mut Vec<(String, String, V)>)
    ensures
        triples_map(triple_views(final(out)@)) == triples_map(triple_views(old(out)@)).union_prefer_right(
            app_entries(a@, inner.view(), inner.key_list()),
        ),
{
    let ghost t0 = triples_map(triple_views(out@));
    let n = inner.count();
    let mut j: usize = 0;
    assert(triples_map(triple_views(out@)) =~= t0.union_prefer_right(
        app_entries(a@, inner.view(), inner.key_list().take(0)),
    ));
    while j < n
        invariant
            j <= n,
            n == inner.key_list().len(),
            triples_map(triple_views(out@)) == t0.union_prefer_right(
                app_entries(a@, inner.view(), inner.key_list().take(j as int)),
            ),
        decreases n - j,
    {
        let k = inner.key_at(j);
        let v = *inner.value_at(j);
        let ghost before = out@;
        out.push((a.clone(), k.clone(), v));
        assert(triple_views(out@) =~= triple_views(before).push((a@, k@, v)));
        assert(triple_views(out@).drop_last() =~= triple_views(before));
        let ghost ks1 = inner.key_list().take(j + 1);
        assert(ks1 =~= inner.key_list().take(j as int).push(k@));
        assert forall|p: (Seq<char>, Seq<char>)| #[trigger] ks1.contains(p.1) <==> (inner.key_list().take(j as int).contains(p.1) || p.1 == k@) by {
            if ks1.contains(p.1) {
                let q = choose|q: int| 0 <= q < ks1.len() && ks1[q] == p.1;
                if q < j {
                    assert(inner.key_list().take(j as int)[q] == p.1);
                }
            }
            if inner.key_list().take(j as int).contains(p.1) {
                let q = choose|q: int| 0 <= q < j && inner.key_list().take(j as int)[q] == p.1;
                assert(ks1[q] == p.1);
            }
            if p.1 == k@ {
                assert(ks1[j as int] == p.1);
            }
        }
        assert(triples_map(triple_views(out@)) =~= t0.union_prefer_right(
            app_entries(a@, inner.view(), ks1),
        ));
        j = j + 1;
    }
    inner.facts();
    assert(inner.key_list().take(n as int) =~= inner.key_list());
}

impl<V: Copy> PairMap<V> {
    /// Every entry, by app and then id in increasing order.
    pub fn entries(&self) -> (r: Vec<(String, String, V)>)
        ensures
            triples_map(triple_views(r@)) == self.view(),
    {
        let mut out: Vec<(String, String, V)> = Vec::new();
        let n = self.outer.count();
        let mut i: usize = 0;
        self.outer.facts();
        assert(triples_map(triple_views(out@)) =~= self.view().restrict(
            Set::new(|p: (Seq<char>, Seq<char>)| self.outer.key_list().take(0).contains(p.0)),
        ));
        while i < n
            invariant
                i <= n,
                n == self.outer.key_list().len(),
                forall|x: Seq<char>| self.outer.key_list().contains(x) <==> self.outer.view().contains_key(x),
                triples_map(triple_views(out@)) == self.view().restrict(
                    Set::new(|p: (Seq<char>, Seq<char>)| self.outer.key_list().take(i as int).contains(p.0)),
                ),
            decreases n - i,
        {
            let a = self.outer.key_at(i);
            let inner = self.outer.value_at(i);
            let ghost before = triples_map(triple_views(out@));
            push_app_entries(a, inner, &mut out);
            inner.facts();
            let ghost ks1 = self.outer.key_list().take(i + 1);
            assert forall|x: Seq<char>| #[trigger] ks1.contains(x) <==> (self.outer.key_list().take(i as int).contains(x) || x == a@) by {
                if ks1.contains(x) {
                    let q = choose|q: int| 0 <= q < ks1.len() && ks1[q] == x;
                    if q < i {
                        assert(self.outer.key_list().take(i as int)[q] == x);
                    }
                }
                if self.outer.key_list().take(i as int).contains(x) {
                    let q = choose|q: int| 0 <= q < i && self.outer.key_list().take(i as int)[q] == x;
                    assert(ks1[q] == x);
                }
                if x == a@ {
                    assert(ks1[i as int] == x);
                }
            }
            assert(triples_map(triple_views(out@)) =~= self.view().restrict(
                Set::new(|p: (Seq<char>, Seq<char>)| ks1.contains(p.0)),
            ));
            i = i + 1;
        }
        assert(self.outer.key_list().take(n as int) =~= self.outer.key_list());
        assert(triples_map(triple_views(out@)) =~= self.view());
        out
    }

    /// The map of a run of entries, later entries winning.
    pub fn from_entries(es: &Vec<(String, String, V)>) -> (m: PairMap<V>)
        ensures
            m.view() == triples_map(triple_views(es@)),
    {
        let mut m: PairMap<V> = PairMap::new();
        let mut i: usize = 0;
        assert(triple_views(es@).take(0) =~= Seq::<(Seq<char>, Seq<char>, V)>::empty());
        while i < es.len()
            invariant
                i <= es@.len(),
                m.view() == triples_map(triple_views(es@).take(i as int)),
            decreases es@.len() - i,
        {
            let e = &es[i];
            m.insert(e.0.as_str(), e.1.as_str(), e.2);
            assert(triple_views(es@).take(i + 1).drop_last() =~= triple_views(es@).take(i as int));
            i = i + 1;
        }
        assert(triple_views(es@).take(es@.len() as int) =~= triple_views(es@));
        m
    }
}

} // verus!
