//! Behavior registry: resolves object behavior names to their programs.
//!
//! A structured registry of named behaviors with registration, lookup,
//! listing and a clear error on unknown names. `B` is the type of the
//! behavior factories; running a factory is up to the caller, through
//! [`BehaviorRegistry::factory`].
use crate::error::{AVMError, BaseError, ObjError, PureLayerError, TxLayerError};
use crate::store::named::{by_name, lemma_by_name_empty, named_contains, named_get, named_insert, named_keys, named_len};
use rustc_hash::FxHashMap;
use vstd::prelude::*;

verus! {

/// `e` is the error `BehaviorNotFound` for the name `name`.
pub open spec fn names_missing_behavior(e: AVMError, name: Seq<char>) -> bool {
    match e {
        AVMError::PureLayer(
            PureLayerError::TxLayer(TxLayerError::Base(BaseError::Obj(ObjError::BehaviorNotFound(n)))),
        ) => n@ == name,
        _ => false,
    }
}

/// A structured registry of named object behaviors.
pub struct BehaviorRegistry<B> {
    behaviors: FxHashMap<String, B>,
}

impl<B> View for BehaviorRegistry<B> {
    type V = Map<Seq<char>, B>;

    /// The factories, by behavior name.
    closed spec fn view(&self) -> Map<Seq<char>, B> {
        by_name(self.behaviors@)
    }
}

impl<B> BehaviorRegistry<B> {
    /// An empty registry.
    pub fn new() -> (r: Self)
        ensures
            r@ == Map::<Seq<char>, B>::empty(),
    {
        proof {
            lemma_by_name_empty::<B>();
        }
        Self { behaviors: FxHashMap::default() }
    }

    /// Register a named behavior. The name must not be registered yet.
    pub fn register(&mut self, name: &str, factory: B)
        requires
            !old(self)@.contains_key(name@),
        ensures
            final(self)@ == old(self)@.insert(name@, factory),
    {
        named_insert(&mut self.behaviors, name.to_string(), factory);
    }

    /// The factory of behavior `name`, or `BehaviorNotFound(name)` when no
    /// behavior has that name.
    pub fn factory(&self, name: &str) -> (r: Result<&B, AVMError>)
        ensures
            match r {
                Ok(f) => self@.contains_key(name@) && *f == self@[name@],
                Err(e) => !self@.contains_key(name@) && names_missing_behavior(e, name@),
            },
    {
        match named_get(&self.behaviors, name) {
            Some(f) => Ok(f),
            None => Err(AVMError::from(ObjError::BehaviorNotFound(name.to_string()))),
        }
    }

    /// All registered behavior names, each once, in no particular order.
    pub fn names(&self) -> (r: Vec<&str>)
        ensures
            r@.map_values(|s: &str| s@).no_duplicates(),
            r@.map_values(|s: &str| s@).to_set() == self@.dom(),
    {
        named_keys(&self.behaviors)
    }

    /// Whether a behavior name is registered.
    pub fn contains(&self, name: &str) -> (b: bool)
        ensures
            b == self@.contains_key(name@),
    {
        named_contains(&self.behaviors, name)
    }

    /// Number of registered behaviors.
    pub fn len(&self) -> (n: usize)
        ensures
            n == self@.len(),
    {
        named_len(&self.behaviors)
    }

    /// Whether the registry is empty.
    pub fn is_empty(&self) -> (b: bool)
        ensures
            b == (self@.len() == 0),
    {
        named_len(&self.behaviors) == 0
    }
}

impl<B> Default for BehaviorRegistry<B> {
    fn default() -> (r: Self)
        ensures
            r@ == Map::<Seq<char>, B>::empty(),
    {
        Self::new()
    }
}

} // verus!
