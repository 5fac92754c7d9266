//! The combined persistent store.
use super::{MetaStore, ObjectBehavior, ObjectStore, StateStore};
use crate::types::val::ValView;
use crate::types::{ObjectId, ObjectMeta};
use vstd::prelude::*;

verus! {

/// The combined persistent store: behaviors, metadata, and state.
#[derive(Debug)]
pub struct Store {
    pub objects: ObjectStore,
    pub metadata: MetaStore,
    pub states: StateStore,
}

/// The model of a store: its three maps.
pub ghost struct StoreView {
    pub objects: Map<u64, ObjectBehavior>,
    pub metadata: Map<u64, ObjectMeta>,
    pub states: Map<u64, Seq<ValView>>,
}

impl View for Store {
    type V = StoreView;

    open spec fn view(&self) -> StoreView {
        StoreView { objects: self.objects@, metadata: self.metadata@, states: self.states@ }
    }
}

impl Clone for Store {
    fn clone(&self) -> (r: Self)
        ensures
            r@ == self@,
    {
        Store {
            objects: self.objects.clone(),
            metadata: self.metadata.clone(),
            states: self.states.clone(),
        }
    }
}

impl Store {
    /// An empty store.
    pub fn new() -> (s: Self)
        ensures
            s@.objects == Map::<u64, ObjectBehavior>::empty(),
            s@.metadata == Map::<u64, ObjectMeta>::empty(),
            s@.states == Map::<u64, Seq<ValView>>::empty(),
    {
        Self { objects: ObjectStore::new(), metadata: MetaStore::new(), states: StateStore::new() }
    }

    /// Whether object `id` exists: it has both a behavior and metadata.
    pub fn contains(&self, id: &ObjectId) -> (b: bool)
        ensures
            b == (self@.objects.contains_key(id.0) && self@.metadata.contains_key(id.0)),
    {
        self.objects.get(id).is_some() && self.metadata.get(id).is_some()
    }

    /// Remove object `id` from all three maps.
    pub fn remove(&mut self, id: &ObjectId)
        ensures
            final(self)@ == (StoreView {
                objects: old(self)@.objects.remove(id.0),
                metadata: old(self)@.metadata.remove(id.0),
                states: old(self)@.states.remove(id.0),
            }),
    {
        self.objects.remove(id);
        self.metadata.remove(id);
        self.states.remove(id);
    }
}

impl Default for Store {
    fn default() -> (s: Self)
        ensures
            s@.objects == Map::<u64, ObjectBehavior>::empty(),
            s@.metadata == Map::<u64, ObjectMeta>::empty(),
            s@.states == Map::<u64, Seq<ValView>>::empty(),
    {
        Self::new()
    }
}

/// After an object is removed from a store, the store no longer contains it,
/// and no other object's entries change.
pub proof fn lemma_remove_then_absent(before: StoreView, after: StoreView, id: ObjectId, other: u64)
    requires
        after == (StoreView {
            objects: before.objects.remove(id.0),
            metadata: before.metadata.remove(id.0),
            states: before.states.remove(id.0),
        }),
        other != id.0,
    ensures
        !after.objects.contains_key(id.0),
        !after.metadata.contains_key(id.0),
        !after.states.contains_key(id.0),
        after.objects.contains_key(other) == before.objects.contains_key(other),
        after.metadata.contains_key(other) == before.metadata.contains_key(other),
        after.states.contains_key(other) == before.states.contains_key(other),
{
}

/// A read gives back what a write wrote: after an object's behavior,
/// metadata and state are inserted under `id`, the store contains the object
/// and holds exactly those entries under `id`; the entries of every other id
/// are unchanged.
pub proof fn lemma_insert_then_read(
    before: StoreView,
    after: StoreView,
    id: ObjectId,
    behavior: ObjectBehavior,
    meta: ObjectMeta,
    state: Seq<ValView>,
    other: u64,
)
    requires
        after == (StoreView {
            objects: before.objects.insert(id.0, behavior),
            metadata: before.metadata.insert(id.0, meta),
            states: before.states.insert(id.0, state),
        }),
        other != id.0,
    ensures
        after.objects.contains_key(id.0) && after.metadata.contains_key(id.0),
        after.objects[id.0] == behavior,
        after.metadata[id.0] == meta,
        after.states[id.0] == state,
        after.objects.contains_key(other) == before.objects.contains_key(other),
        after.objects[other] == before.objects[other],
        after.metadata.contains_key(other) == before.metadata.contains_key(other),
        after.metadata[other] == before.metadata[other],
        after.states.contains_key(other) == before.states.contains_key(other),
        after.states[other] == before.states[other],
{
}

} // verus!
