//! The active registry: listener id to the installed native listener handle.
//!
//! The registry owns every handle it holds. A handle leaves it only through
//! [`ActiveRegistry::remove`], [`ActiveRegistry::insert`] (the displaced one)
//! or [`ActiveRegistry::teardown`], each of which hands the handle back to
//! the caller for explicit release; none is dropped silently.

use vstd::prelude::*;
use crate::keyed::{key_set, keys_unique, map_of, KeyedList};

verus! {

/// A native listener that is installed on the element.
pub struct InstalledListener<H> {
    pub event_type: String,
    pub handle: H,
}

/// Listener id to installed listener, owned by one component instance.
pub struct ActiveRegistry<H> {
    listeners: KeyedList<InstalledListener<H>>,
}

impl<H> View for ActiveRegistry<H> {
    type V = Map<Seq<char>, InstalledListener<H>>;

    closed spec fn view(&self) -> Map<Seq<char>, InstalledListener<H>> {
        self.listeners@
    }
}

impl<H> ActiveRegistry<H> {
    /// The listener ids are distinct.
    pub closed spec fn wf(&self) -> bool {
        self.listeners.wf()
    }

    pub fn new() -> (r: Self)
        ensures
            r.wf(),
            r@ == Map::<Seq<char>, InstalledListener<H>>::empty(),
    {
        ActiveRegistry { listeners: KeyedList::new() }
    }

    pub fn contains(&self, id: &String) -> (r: bool)
        requires
            self.wf(),
        ensures
            r == self@.contains_key(id@),
    {
        self.listeners.contains_key(id)
    }

    pub fn get(&self, id: &String) -> (r: Option<&InstalledListener<H>>)
        requires
            self.wf(),
        ensures
            match r {
                Some(l) => self@.contains_key(id@) && *l == self@[id@],
                None => !self@.contains_key(id@),
            },
    {
        self.listeners.get(id)
    }

    /// Stores a listener under `id` and hands back the one it displaces, for
    /// the caller to release.
    pub fn insert(&mut self, id: String, event_type: String, handle: H) -> (r: Option<InstalledListener<H>>)
        requires
            old(self).wf(),
        ensures
            final(self).wf(),
            final(self)@ == old(self)@.insert(id@, InstalledListener { event_type, handle }),
            match r {
                Some(l) => old(self)@.contains_key(id@) && l == old(self)@[id@],
                None => !old(self)@.contains_key(id@),
            },
    {
        self.listeners.insert(id, InstalledListener { event_type, handle })
    }

    /// Takes the listener under `id` out for release; absence is no error.
    pub fn remove(&mut self, id: &String) -> (r: Option<InstalledListener<H>>)
        requires
            old(self).wf(),
        ensures
            final(self).wf(),
            final(self)@ == old(self)@.remove(id@),
            match r {
                Some(l) => old(self)@.contains_key(id@) && l == old(self)@[id@],
                None => !old(self)@.contains_key(id@),
            },
    {
        self.listeners.remove(id)
    }

    /// Keeps the listeners whose id is in `keep` and takes the others out
    /// for release.
    pub fn retain(&mut self, keep: &Vec<String>) -> (released: Vec<(String, InstalledListener<H>)>)
        requires
            old(self).wf(),
        ensures
            final(self).wf(),
            final(self)@ == old(self)@.restrict(key_set(keep@)),
            map_of(released@) == old(self)@.remove_keys(key_set(keep@)),
            keys_unique(released@),
    {
        self.listeners.retain_keys(keep)
    }

    /// Takes every listener out for release, as when the owning component is
    /// destroyed; the registry is empty after.
    pub fn teardown(&mut self) -> (released: Vec<(String, InstalledListener<H>)>)
        requires
            old(self).wf(),
        ensures
            final(self).wf(),
            final(self)@ == Map::<Seq<char>, InstalledListener<H>>::empty(),
            map_of(released@) == old(self)@,
            keys_unique(released@),
    {
        self.listeners.take_all()
    }
}

} // verus!
