//! Object behavior storage.
use super::fx::{fx_contains, fx_get, fx_insert, fx_keys, fx_remove};
use crate::types::ObjectId;
use rustc_hash::FxHashMap;
use vstd::prelude::*;

verus! {

/// An object's behavior, identified by name.
#[derive(Debug)]
pub struct ObjectBehavior {
    pub name: String,
}

impl ObjectBehavior {
    /// The behavior with the given name.
    pub fn named(name: &str) -> (b: Self)
        ensures
            b.name@ == name@,
    {
        Self { name: name.to_owned() }
    }
}

impl Clone for ObjectBehavior {
    fn clone(&self) -> (r: Self)
        ensures
            r == *self,
    {
        Self { name: self.name.clone() }
    }
}

/// Maps object ids to their behaviors (immutable once created).
#[derive(Debug)]
pub struct ObjectStore {
    inner: FxHashMap<u64, ObjectBehavior>,
}

impl View for ObjectStore {
    type V = Map<u64, ObjectBehavior>;

    closed spec fn view(&self) -> Map<u64, ObjectBehavior> {
        self.inner@
    }
}

impl Clone for ObjectStore {
    fn clone(&self) -> (r: Self)
        ensures
            r@ == self@,
    {
        Self { inner: self.inner.clone() }
    }
}

impl ObjectStore {
    /// An empty store.
    pub fn new() -> (s: Self)
        ensures
            s@ == Map::<u64, ObjectBehavior>::empty(),
    {
        Self { inner: FxHashMap::default() }
    }

    /// The behavior of object `id`, if it is stored.
    pub fn get(&self, id: &ObjectId) -> (r: Option<&ObjectBehavior>)
        ensures
            match r {
                Some(b) => self@.contains_key(id.0) && *b == self@[id.0],
                None => !self@.contains_key(id.0),
            },
    {
        fx_get(&self.inner, id.0)
    }

    /// Store `behavior` for object `id`.
    pub fn insert(&mut self, id: ObjectId, behavior: ObjectBehavior)
        ensures
            final(self)@ == old(self)@.insert(id.0, behavior),
    {
        fx_insert(&mut self.inner, id.0, behavior)
    }

    /// Remove object `id`, returning its behavior if it was stored.
    pub fn remove(&mut self, id: &ObjectId) -> (r: Option<ObjectBehavior>)
        ensures
            final(self)@ == old(self)@.remove(id.0),
            r == (if old(self)@.contains_key(id.0) {
                Some(old(self)@[id.0])
            } else {
                None
            }),
    {
        fx_remove(&mut self.inner, id.0)
    }

    /// Whether object `id` is stored.
    pub fn contains(&self, id: &ObjectId) -> (b: bool)
        ensures
            b == self@.contains_key(id.0),
    {
        fx_contains(&self.inner, id.0)
    }

    /// All stored objects with their behaviors, each object once, in no
    /// particular order.
    pub fn iter(&self) -> (r: Vec<(ObjectId, &ObjectBehavior)>)
        ensures
            lists_entries(r@, self@),
    {
        entries_of(&self.inner)
    }
}

impl Default for ObjectStore {
    fn default() -> (s: Self)
        ensures
            s@ == Map::<u64, ObjectBehavior>::empty(),
    {
        Self::new()
    }
}

/// `entries` lists the entries of `m`: every entry of `m` once, as its
/// object id and a reference to its value.
pub open spec fn lists_entries<V>(entries: Seq<(ObjectId, &V)>, m: Map<u64, V>) -> bool {
    &&& forall|i: int|
        0 <= i < entries.len() ==> m.contains_key((#[trigger] entries[i]).0.0) && *entries[i].1
            == m[entries[i].0.0]
    &&& forall|k: u64| #[trigger] m.contains_key(k) ==> exists|i: int| 0 <= i < entries.len() && (#[trigger] entries[i]).0 == ObjectId(k)
    &&& forall|i: int, j: int|
        0 <= i < entries.len() && 0 <= j < entries.len() && i != j ==> (#[trigger] entries[i]).0
            != (#[trigger] entries[j]).0
}

/// The entries of `m`, each once, in the order in which the map hands out
/// its keys.
pub(crate) fn entries_of<'a, V>(m: &'a FxHashMap<u64, V>) -> (r: Vec<(ObjectId, &'a V)>)
    ensures
        lists_entries(r@, m@),
{
    let keys = fx_keys(m);
    let mut r: Vec<(ObjectId, &'a V)> = Vec::new();
    let mut i: usize = 0;
    while i < keys.len()
        invariant
            i <= keys@.len(),
            keys@.no_duplicates(),
            keys@.to_set() == m@.dom(),
            r@.len() == i,
            forall|j: int|
                0 <= j < i ==> (#[trigger] r@[j]).0 == ObjectId(keys@[j]) && m@.contains_key(keys@[j])
                    && *r@[j].1 == m@[keys@[j]],
        decreases keys@.len() - i,
    {
        let k = keys[i];
        proof {
            assert(keys@.to_set().contains(k));
        }
        match fx_get(m, k) {
            Some(v) => r.push((ObjectId(k), v)),
            None => {},
        }
        i = i + 1;
    }
    proof {
        assert forall|k: u64| #[trigger] m@.contains_key(k) implies exists|i: int|
            0 <= i < r@.len() && (#[trigger] r@[i]).0 == ObjectId(k) by {
            assert(keys@.to_set().contains(k));
            let j = choose|j: int| 0 <= j < keys@.len() && keys@[j] == k;
            assert(r@[j].0 == ObjectId(k));
        }
        assert forall|a: int, b: int|
            0 <= a < r@.len() && 0 <= b < r@.len() && a != b implies (#[trigger] r@[a]).0
            != (#[trigger] r@[b]).0 by {
            assert(keys@[a] != keys@[b]);
        }
    }
    r
}

} // verus!
