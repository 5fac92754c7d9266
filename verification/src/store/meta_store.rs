//! Object metadata storage.
use super::fx::{fx_contains, fx_get, fx_get_mut, fx_insert, fx_remove};
use super::object_store::{entries_of, lists_entries};
use crate::types::{ObjectId, ObjectMeta};
use rustc_hash::FxHashMap;
use vstd::prelude::*;

verus! {

/// Maps object ids to their runtime metadata (mutable).
#[derive(Debug)]
pub struct MetaStore {
    inner: FxHashMap<u64, ObjectMeta>,
}

impl View for MetaStore {
    type V = Map<u64, ObjectMeta>;

    closed spec fn view(&self) -> Map<u64, ObjectMeta> {
        self.inner@
    }
}

impl Clone for MetaStore {
    fn clone(&self) -> (r: Self)
        ensures
            r@ == self@,
    {
        Self { inner: self.inner.clone() }
    }
}

impl MetaStore {
    /// An empty store.
    pub fn new() -> (s: Self)
        ensures
            s@ == Map::<u64, ObjectMeta>::empty(),
    {
        Self { inner: FxHashMap::default() }
    }

    /// The metadata of object `id`, if it is stored.
    pub fn get(&self, id: &ObjectId) -> (r: Option<&ObjectMeta>)
        ensures
            match r {
                Some(m) => self@.contains_key(id.0) && *m == self@[id.0],
                None => !self@.contains_key(id.0),
            },
    {
        fx_get(&self.inner, id.0)
    }

    /// Whether metadata for object `id` is stored.
    pub fn contains(&self, id: &ObjectId) -> (b: bool)
        ensures
            b == self@.contains_key(id.0),
    {
        fx_contains(&self.inner, id.0)
    }

    /// A mutable reference to the metadata of object `id`, if it is stored;
    /// afterwards `id` maps to whatever the caller left there.
    pub fn get_mut(&mut self, id: &ObjectId) -> (r: Option<&mut ObjectMeta>)
        ensures
            old(self)@.contains_key(id.0) ==> r.is_some() && *r.unwrap() == old(self)@[id.0]
                && final(self)@ == old(self)@.insert(id.0, *final(r.unwrap())),
            !old(self)@.contains_key(id.0) ==> r.is_none() && *final(self) == *old(self),
    {
        fx_get_mut(&mut self.inner, id.0)
    }

    /// Store `meta` for object `id`, replacing what was there.
    pub fn insert(&mut self, id: ObjectId, meta: ObjectMeta)
        ensures
            final(self)@ == old(self)@.insert(id.0, meta),
    {
        fx_insert(&mut self.inner, id.0, meta)
    }

    /// Remove the metadata of object `id`, returning it if it was stored.
    pub fn remove(&mut self, id: &ObjectId) -> (r: Option<ObjectMeta>)
        ensures
            final(self)@ == old(self)@.remove(id.0),
            r == (if old(self)@.contains_key(id.0) {
                Some(old(self)@[id.0])
            } else {
                None
            }),
    {
        fx_remove(&mut self.inner, id.0)
    }

    /// All objects with metadata, with their metadata, each object once, in
    /// no particular order.
    pub fn iter(&self) -> (r: Vec<(ObjectId, &ObjectMeta)>)
        ensures
            lists_entries(r@, self@),
    {
        entries_of(&self.inner)
    }
}

impl Default for MetaStore {
    fn default() -> (s: Self)
        ensures
            s@ == Map::<u64, ObjectMeta>::empty(),
    {
        Self::new()
    }
}

} // verus!
