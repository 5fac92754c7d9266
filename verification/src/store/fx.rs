//! Trusted wrappers around the hash maps and sets of `rustc_hash`.
//!
//! `FxHashMap` and `FxHashSet` are std's `HashMap` and `HashSet` with
//! `rustc_hash::FxBuildHasher`. In rustc-hash 2.1.3, `FxBuildHasher` builds
//! `FxHasher::default()` every time, a hasher that starts from the same state
//! and is a deterministic function of what is written to it. With `u64` keys,
//! whose `Eq` is integer equality, the maps therefore behave as std documents
//! for `HashMap`/`HashSet`: a map from keys to values, a set of keys. Every
//! wrapper below is keyed by `u64` for this reason.
//!
//! The order in which keys come out of a map or set is not specified: the
//! wrappers that hand keys out state which keys come out, not in what order.
use rustc_hash::{FxBuildHasher, FxHashMap, FxHashSet};
use vstd::prelude::*;

verus! {

/// The hasher builder of `rustc_hash`, declared so that maps built with it
/// can stand in signatures and fields.
#[verifier::external_type_specification]
#[verifier::external_body]
pub struct ExFxBuildHasher(FxBuildHasher);

/// Calls `HashMap::get`. Claims: the value stored under `k`, or `None` when
/// `k` is absent.
#[verifier::external_body]
pub(crate) fn fx_get<V>(m: &FxHashMap<u64, V>, k: u64) -> (result: Option<&V>)
    ensures
        match result {
            Some(v) => m@.contains_key(k) && *v == m@[k],
            None => !m@.contains_key(k),
        },
{
    m.get(&k)
}

/// Calls `HashMap::get_mut`. Claims: when `k` is present, a reference to its
/// value, and afterwards `k` maps to whatever the caller left there, every
/// other key as before; when `k` is absent, `None`, and the map is left as
/// it was.
#[verifier::external_body]
pub(crate) fn fx_get_mut<'a, V>(m: &'a mut FxHashMap<u64, V>, k: u64) -> (result: Option<&'a mut V>)
    ensures
        old(m)@.contains_key(k) ==> result.is_some() && *result.unwrap() == old(m)@[k]
            && final(m)@ == old(m)@.insert(k, *final(result.unwrap())),
        !old(m)@.contains_key(k) ==> result.is_none() && *final(m) == *old(m),
{
    m.get_mut(&k)
}

/// Calls `HashMap::contains_key`. Claims: whether `k` is present.
#[verifier::external_body]
pub(crate) fn fx_contains<V>(m: &FxHashMap<u64, V>, k: u64) -> (result: bool)
    ensures
        result == m@.contains_key(k),
{
    m.contains_key(&k)
}

/// Calls `HashMap::insert`. Claims: afterwards `k` maps to `v` and every
/// other key is as before.
#[verifier::external_body]
pub(crate) fn fx_insert<V>(m: &mut FxHashMap<u64, V>, k: u64, v: V)
    ensures
        final(m)@ == old(m)@.insert(k, v),
{
    m.insert(k, v);
}

/// Calls `HashMap::remove`. Claims: afterwards `k` is absent and every other
/// key is as before; the result is the value that `k` held, if any.
#[verifier::external_body]
pub(crate) fn fx_remove<V>(m: &mut FxHashMap<u64, V>, k: u64) -> (result: Option<V>)
    ensures
        final(m)@ == old(m)@.remove(k),
        result == (if old(m)@.contains_key(k) {
            Some(old(m)@[k])
        } else {
            None
        }),
{
    m.remove(&k)
}

/// Calls `HashMap::len`. Claims: the number of keys.
#[verifier::external_body]
pub(crate) fn fx_len<V>(m: &FxHashMap<u64, V>) -> (result: usize)
    ensures
        result == m@.len(),
{
    m.len()
}

/// Collects the keys of `HashMap::keys` into a vector. Claims: each key of
/// the map occurs exactly once; the order is not stated.
#[verifier::external_body]
pub(crate) fn fx_keys<V>(m: &FxHashMap<u64, V>) -> (result: Vec<u64>)
    ensures
        result@.no_duplicates(),
        result@.to_set() == m@.dom(),
{
    m.keys().copied().collect()
}

/// Calls `HashSet::insert`. Claims: afterwards `k` is in the set; the result
/// is whether it was absent before.
#[verifier::external_body]
pub(crate) fn fxset_insert(s: &mut FxHashSet<u64>, k: u64) -> (result: bool)
    ensures
        final(s)@ == old(s)@.insert(k),
        result == !old(s)@.contains(k),
{
    s.insert(k)
}

/// Calls `HashSet::contains`. Claims: whether `k` is in the set.
#[verifier::external_body]
pub(crate) fn fxset_contains(s: &FxHashSet<u64>, k: u64) -> (result: bool)
    ensures
        result == s@.contains(k),
{
    s.contains(&k)
}

/// Calls `HashSet::len`. Claims: the number of elements.
#[verifier::external_body]
pub(crate) fn fxset_len(s: &FxHashSet<u64>) -> (result: usize)
    ensures
        result == s@.len(),
{
    s.len()
}

/// Collects the elements of `HashSet::iter` into a vector. Claims: each
/// element occurs exactly once; the order is not stated.
#[verifier::external_body]
pub(crate) fn fxset_elements(s: &FxHashSet<u64>) -> (result: Vec<u64>)
    ensures
        result@.no_duplicates(),
        result@.to_set() == s@,
{
    s.iter().copied().collect()
}

} // verus!
