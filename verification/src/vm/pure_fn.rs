//! Pure function registry.
//!
//! A registry of named pure functions that AVM programs call through
//! `callPure`. Functions are versioned for consistency across distributed
//! nodes: a function starts at version 0 and every update adds one. `F` is
//! the type of the functions; evaluating one is up to the caller, through
//! [`PureFunctions::get`].
use crate::store::named::{
    by_name, lemma_by_name_empty, named_contains, named_get, named_insert, named_remove,
};
use rustc_hash::FxHashMap;
use vstd::prelude::*;

verus! {

/// An entry in the pure function registry.
#[derive(Debug, Clone)]
pub struct FunctionEntry<F> {
    pub impl_fn: F,
    pub version: u64,
}

/// Registry of named pure functions.
#[derive(Debug, Clone)]
pub struct PureFunctions<F> {
    registry: FxHashMap<String, FunctionEntry<F>>,
}

impl<F> View for PureFunctions<F> {
    type V = Map<Seq<char>, FunctionEntry<F>>;

    /// The entries, by function name.
    closed spec fn view(&self) -> Map<Seq<char>, FunctionEntry<F>> {
        by_name(self.registry@)
    }
}

impl<F> PureFunctions<F> {
    /// An empty registry.
    pub fn new() -> (r: Self)
        ensures
            r@ == Map::<Seq<char>, FunctionEntry<F>>::empty(),
    {
        proof {
            lemma_by_name_empty::<FunctionEntry<F>>();
        }
        Self { registry: FxHashMap::default() }
    }

    /// Look up a function by name.
    pub fn get(&self, name: &str) -> (r: Option<&FunctionEntry<F>>)
        ensures
            match r {
                Some(e) => self@.contains_key(name@) && *e == self@[name@],
                None => !self@.contains_key(name@),
            },
    {
        named_get(&self.registry, name)
    }

    /// Register a new function at version 0. Returns `false`, and changes
    /// nothing, if the name already exists.
    pub fn register(&mut self, name: String, impl_fn: F) -> (added: bool)
        ensures
            added == !old(self)@.contains_key(name@),
            added ==> final(self)@ == old(self)@.insert(name@, FunctionEntry { impl_fn, version: 0 }),
            !added ==> final(self)@ == old(self)@,
    {
        if named_contains(&self.registry, name.as_str()) {
            return false;
        }
        named_insert(&mut self.registry, name, FunctionEntry { impl_fn, version: 0 });
        true
    }

    /// Replace an existing function and advance its version by one. Returns
    /// `false`, and changes nothing, if the name is not registered.
    pub fn update(&mut self, name: &str, impl_fn: F) -> (found: bool)
        requires
            old(self)@.contains_key(name@) ==> old(self)@[name@].version < u64::MAX,
        ensures
            found == old(self)@.contains_key(name@),
            found ==> final(self)@ == old(self)@.insert(
                name@,
                FunctionEntry { impl_fn, version: (old(self)@[name@].version + 1) as u64 },
            ),
            !found ==> final(self)@ == old(self)@,
    {
        match named_remove(&mut self.registry, name) {
            Some(entry) => {
                let version = entry.version + 1;
                named_insert(&mut self.registry, name.to_string(), FunctionEntry { impl_fn, version });
                proof {
                    assert(by_name(self.registry@) =~= old(self)@.insert(
                        name@,
                        FunctionEntry { impl_fn, version },
                    ));
                }
                true
            },
            None => {
                proof {
                    assert(by_name(self.registry@) =~= old(self)@);
                }
                false
            },
        }
    }
}

impl<F> Default for PureFunctions<F> {
    fn default() -> (r: Self)
        ensures
            r@ == Map::<Seq<char>, FunctionEntry<F>>::empty(),
    {
        Self::new()
    }
}

/// Registering never replaces a function: a second registration of a name
/// is refused and the first one stays, at its version.
pub proof fn lemma_register_keeps_first<F>(
    before: Map<Seq<char>, FunctionEntry<F>>,
    name: Seq<char>,
    f: F,
    middle: Map<Seq<char>, FunctionEntry<F>>,
    after: Map<Seq<char>, FunctionEntry<F>>,
    added_first: bool,
    added_second: bool,
)
    requires
        !before.contains_key(name),
        added_first == !before.contains_key(name),
        added_first ==> middle == before.insert(name, FunctionEntry { impl_fn: f, version: 0 }),
        added_second == !middle.contains_key(name),
        !added_second ==> after == middle,
    ensures
        added_first,
        !added_second,
        after[name] == (FunctionEntry { impl_fn: f, version: 0 }),
{
}

} // verus!
