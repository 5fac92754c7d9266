//! Object state storage.
use super::fx::{fx_get, fx_insert, fx_remove};
use crate::types::val::{vals_view, ValView};
use crate::types::{ObjectId, Val};
use rustc_hash::FxHashMap;
use vstd::prelude::*;

verus! {

/// Maps object ids to their internal state (a list of values, mutable).
///
/// Its model maps each id number to the models of the values of the state.
#[derive(Debug)]
pub struct StateStore {
    inner: FxHashMap<u64, Vec<Val>>,
}

impl View for StateStore {
    type V = Map<u64, Seq<ValView>>;

    closed spec fn view(&self) -> Map<u64, Seq<ValView>> {
        self.inner@.map_values(|v: Vec<Val>| vals_view(v@))
    }
}

impl Clone for StateStore {
    fn clone(&self) -> (r: Self)
        ensures
            r@ == self@,
    {
        Self { inner: self.inner.clone() }
    }
}

impl StateStore {
    /// An empty store.
    pub fn new() -> (s: Self)
        ensures
            s@ == Map::<u64, Seq<ValView>>::empty(),
    {
        let s = Self { inner: FxHashMap::default() };
        proof {
            assert(s@ =~= Map::<u64, Seq<ValView>>::empty());
        }
        s
    }

    /// The state of object `id`, if it is stored.
    pub fn get(&self, id: &ObjectId) -> (r: Option<&Vec<Val>>)
        ensures
            match r {
                Some(v) => self@.contains_key(id.0) && vals_view(v@) == self@[id.0],
                None => !self@.contains_key(id.0),
            },
    {
        fx_get(&self.inner, id.0)
    }

    /// Store `state` for object `id`, replacing what was there.
    pub fn insert(&mut self, id: ObjectId, state: Vec<Val>)
        ensures
            final(self)@ == old(self)@.insert(id.0, vals_view(state@)),
    {
        fx_insert(&mut self.inner, id.0, state);
        proof {
            assert(self@ =~= old(self)@.insert(id.0, vals_view(state@)));
        }
    }

    /// Remove the state of object `id`, returning it if it was stored.
    pub fn remove(&mut self, id: &ObjectId) -> (r: Option<Vec<Val>>)
        ensures
            final(self)@ == old(self)@.remove(id.0),
            match r {
                Some(v) => old(self)@.contains_key(id.0) && vals_view(v@) == old(self)@[id.0],
                None => !old(self)@.contains_key(id.0),
            },
    {
        let r = fx_remove(&mut self.inner, id.0);
        proof {
            assert(self@ =~= old(self)@.remove(id.0));
        }
        r
    }
}

impl Default for StateStore {
    fn default() -> (s: Self)
        ensures
            s@ == Map::<u64, Seq<ValView>>::empty(),
    {
        Self::new()
    }
}

} // verus!
