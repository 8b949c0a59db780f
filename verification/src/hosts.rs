//! The bookkeeping of one hosting widget's live app isolates: which apps
//! run here, under which isolate heap, and whether an IPC message may be
//! delivered to one of them. Creating and drawing the hosts is the host's
//! part.

use vstd::prelude::*;

use crate::maps::StrMap;
use crate::text::{owned, texts};

verus! {

/// The apps running in one hosting widget, each with its isolate's heap
/// key when the isolate reported one.
#[derive(Debug)]
pub struct HostBook {
    heaps: StrMap<Option<usize>>,
}

impl HostBook {
    pub closed spec fn view(&self) -> Map<Seq<char>, Option<usize>> {
        self.heaps.view()
    }

    pub fn new() -> (b: HostBook)
        ensures
            b.view() == Map::<Seq<char>, Option<usize>>::empty(),
    {
        HostBook { heaps: StrMap::new() }
    }

    /// Records an app's isolate as running here. An app already running
    /// keeps its isolate: the host is reused, not made twice.
    pub fn started(&mut self, app_id: &str, heap_key: Option<usize>)
        ensures
            old(self).view().contains_key(app_id@) ==> final(self).view() == old(self).view(),
            !old(self).view().contains_key(app_id@) ==> final(self).view() == old(self).view().insert(
                app_id@,
                heap_key,
            ),
    {
        if !self.heaps.contains_key(app_id) {
            self.heaps.insert(owned(app_id), heap_key);
        }
    }

    /// Forgets a torn-down isolate; says whether it was running here.
    pub fn stopped(&mut self, app_id: &str) -> (was_running: bool)
        ensures
            final(self).view() == old(self).view().remove(app_id@),
            was_running == old(self).view().contains_key(app_id@),
    {
        match self.heaps.remove(app_id) {
            Some(_) => true,
            None => false,
        }
    }

    pub fn is_running(&self, app_id: &str) -> (r: bool)
        ensures
            r == self.view().contains_key(app_id@),
    {
        self.heaps.contains_key(app_id)
    }

    /// Every app running here, in increasing id order.
    pub fn running_ids(&self) -> (r: Vec<String>)
        ensures
            forall|a: Seq<char>| texts(r@).contains(a) <==> self.view().contains_key(a),
    {
        self.heaps.facts();
        let r = self.heaps.keys();
        assert(texts(r@) =~= r@.map_values(|s: String| s@));
        r
    }

    /// Whether an IPC message from the isolate `from_heap` goes to `to`
    /// here: `to` must run here, and never back into the sender's own heap.
    pub fn delivers_to(&self, to: &str, from_heap: usize) -> (r: bool)
        ensures
            r == (self.view().contains_key(to@) && self.view()[to@] != Some(from_heap)),
    {
        match self.heaps.get(to) {
            Some(h) => match h {
                Some(k) => *k != from_heap,
                None => true,
            },
            None => false,
        }
    }
}

} // verus!
