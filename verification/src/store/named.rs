//! Trusted wrappers around `rustc_hash` maps keyed by names (`String`).
//!
//! `String`'s `Eq` and `Hash` go by the characters, and `FxBuildHasher`
//! builds the same deterministic hasher every time (rustc-hash 2.1.3), so a
//! `FxHashMap<String, V>` is a map from character sequences to values: it
//! never holds two keys with the same characters, and a lookup with a `&str`
//! finds the key with the same characters. The wrappers state this over
//! [`by_name`], the map's entries keyed by the characters of their keys. The
//! order in which keys come out is not specified.
use rustc_hash::FxHashMap;
use vstd::prelude::*;

verus! {

/// The entries of `m` keyed by the characters of their keys.
pub open spec fn by_name<V>(m: Map<String, V>) -> Map<Seq<char>, V> {
    Map::new(
        |n: Seq<char>| exists|s: String| m.contains_key(s) && s@ == n,
        |n: Seq<char>| m[choose|s: String| m.contains_key(s) && s@ == n],
    )
}

/// An empty map has no names.
pub proof fn lemma_by_name_empty<V>()
    ensures
        by_name(Map::<String, V>::empty()) == Map::<Seq<char>, V>::empty(),
{
    assert(by_name(Map::<String, V>::empty()) =~= Map::<Seq<char>, V>::empty());
}

/// Calls `HashMap::get` with a `&str`. Claims: the value stored under the
/// name `k`, or `None` when no key has those characters.
#[verifier::external_body]
pub(crate) fn named_get<'a, V>(m: &'a FxHashMap<String, V>, k: &str) -> (result: Option<&'a V>)
    ensures
        match result {
            Some(v) => by_name(m@).contains_key(k@) && *v == by_name(m@)[k@],
            None => !by_name(m@).contains_key(k@),
        },
{
    m.get(k)
}

/// Calls `HashMap::contains_key` with a `&str`. Claims: whether some key has
/// the characters of `k`.
#[verifier::external_body]
pub(crate) fn named_contains<V>(m: &FxHashMap<String, V>, k: &str) -> (result: bool)
    ensures
        result == by_name(m@).contains_key(k@),
{
    m.contains_key(k)
}

/// Calls `HashMap::insert`. Claims: afterwards the name `k` maps to `v` and
/// every other name is as before.
#[verifier::external_body]
pub(crate) fn named_insert<V>(m: &mut FxHashMap<String, V>, k: String, v: V)
    ensures
        by_name(final(m)@) == by_name(old(m)@).insert(k@, v),
{
    m.insert(k, v);
}

/// Calls `HashMap::remove` with a `&str`. Claims: afterwards the name `k` is
/// absent and every other name is as before; the result is the value that
/// `k` held, if any.
#[verifier::external_body]
pub(crate) fn named_remove<V>(m: &mut FxHashMap<String, V>, k: &str) -> (result: Option<V>)
    ensures
        by_name(final(m)@) == by_name(old(m)@).remove(k@),
        result == (if by_name(old(m)@).contains_key(k@) {
            Some(by_name(old(m)@)[k@])
        } else {
            None
        }),
{
    m.remove(k)
}

/// Calls `HashMap::len`. Claims: the number of names.
#[verifier::external_body]
pub(crate) fn named_len<V>(m: &FxHashMap<String, V>) -> (result: usize)
    ensures
        result == by_name(m@).len(),
{
    m.len()
}

/// Collects the keys of `HashMap::keys` as `&str`s. Claims: each name of the
/// map occurs exactly once; the order is not stated.
#[verifier::external_body]
pub(crate) fn named_keys<'a, V>(m: &'a FxHashMap<String, V>) -> (result: Vec<&'a str>)
    ensures
        result@.map_values(|s: &str| s@).no_duplicates(),
        result@.map_values(|s: &str| s@).to_set() == by_name(m@).dom(),
{
    m.keys().map(String::as_str).collect()
}

} // verus!
