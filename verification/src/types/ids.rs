//! Newtype identifiers for AVM entities.
//!
//! Each identifier is a distinct type to prevent accidental mixing at compile
//! time.
use crate::text::{decimal_text, push_decimal};
use crate::trace::count_true;
use vstd::prelude::*;

verus! {

/// Unique identifier for an object in the AVM.
#[derive(Debug, Clone, Copy, PartialEq, Eq, Hash, Structural)]
pub struct ObjectId(pub u64);

/// Identifier for a physical machine in the distributed AVM.
#[derive(Debug, PartialEq, Eq, Hash)]
pub struct MachineId(pub String);

/// Identifier for a logical controller (transaction ordering authority).
#[derive(Debug, PartialEq, Eq, Hash)]
pub struct ControllerId(pub String);

impl Clone for MachineId {
    fn clone(&self) -> (r: Self)
        ensures
            r == *self,
    {
        MachineId(self.0.clone())
    }
}

impl Clone for ControllerId {
    fn clone(&self) -> (r: Self)
        ensures
            r == *self,
    {
        ControllerId(self.0.clone())
    }
}

/// A copy of an optional controller id, equal to it.
pub fn copy_controller(c: &Option<ControllerId>) -> (r: Option<ControllerId>)
    ensures
        r == *c,
{
    match c {
        Some(c) => Some(c.clone()),
        None => None,
    }
}

/// Identifier for a transaction.
#[derive(Debug, Clone, Copy, PartialEq, Eq, Hash, Structural)]
pub struct TxId(pub u64);

/// The display text of an object id: `obj:` followed by the number.
pub open spec fn object_id_text(id: ObjectId) -> Seq<char> {
    "obj:"@ + decimal_text(id.0 as nat)
}

/// The display text of a transaction id: `tx:` followed by the number.
pub open spec fn tx_id_text(id: TxId) -> Seq<char> {
    "tx:"@ + decimal_text(id.0 as nat)
}

/// The display text of a machine id: `machine:` followed by its name.
pub open spec fn machine_id_text(id: MachineId) -> Seq<char> {
    "machine:"@ + id.0@
}

/// The display text of a controller id: `ctrl:` followed by its name.
pub open spec fn controller_id_text(id: ControllerId) -> Seq<char> {
    "ctrl:"@ + id.0@
}

impl ObjectId {
    /// Appends the display text of this id to `out`.
    pub fn write_to(&self, out: &mut String)
        ensures
            final(out)@ == old(out)@ + object_id_text(*self),
    {
        out.append("obj:");
        push_decimal(out, self.0);
    }

    /// The display text of this id, e.g. `obj:42`.
    pub fn display_string(&self) -> (s: String)
        ensures
            s@ == object_id_text(*self),
    {
        let mut s = String::new();
        self.write_to(&mut s);
        s
    }
}

impl TxId {
    /// Appends the display text of this id to `out`.
    pub fn write_to(&self, out: &mut String)
        ensures
            final(out)@ == old(out)@ + tx_id_text(*self),
    {
        out.append("tx:");
        push_decimal(out, self.0);
    }

    /// The display text of this id, e.g. `tx:42`.
    pub fn display_string(&self) -> (s: String)
        ensures
            s@ == tx_id_text(*self),
    {
        let mut s = String::new();
        self.write_to(&mut s);
        s
    }
}

impl MachineId {
    /// Appends the display text of this id to `out`.
    pub fn write_to(&self, out: &mut String)
        ensures
            final(out)@ == old(out)@ + machine_id_text(*self),
    {
        out.append("machine:");
        out.append(self.0.as_str());
    }

    /// The display text of this id, e.g. `machine:m1`.
    pub fn display_string(&self) -> (s: String)
        ensures
            s@ == machine_id_text(*self),
    {
        let mut s = String::new();
        self.write_to(&mut s);
        s
    }
}

impl ControllerId {
    /// Appends the display text of this id to `out`.
    pub fn write_to(&self, out: &mut String)
        ensures
            final(out)@ == old(out)@ + controller_id_text(*self),
    {
        out.append("ctrl:");
        out.append(self.0.as_str());
    }

    /// The display text of this id, e.g. `ctrl:c1`.
    pub fn display_string(&self) -> (s: String)
        ensures
            s@ == controller_id_text(*self),
    {
        let mut s = String::new();
        self.write_to(&mut s);
        s
    }
}

/// Monotonic ID generator with separate counters for objects and transactions.
#[derive(Debug, Clone)]
pub struct FreshIdGen {
    object_counter: u64,
    tx_counter: u64,
}

impl FreshIdGen {
    /// The number that the next object id will carry.
    pub closed spec fn next_object(&self) -> u64 {
        self.object_counter
    }

    /// The number that the next transaction id will carry.
    pub closed spec fn next_tx(&self) -> u64 {
        self.tx_counter
    }

    /// Create a new generator starting from zero.
    pub fn new() -> (g: Self)
        ensures
            g.next_object() == 0,
            g.next_tx() == 0,
    {
        Self { object_counter: 0, tx_counter: 0 }
    }

    /// Generate a fresh [`ObjectId`]: the object counter's value, after which
    /// the counter advances by one. The transaction counter is untouched.
    pub fn next_object_id(&mut self) -> (id: ObjectId)
        requires
            old(self).next_object() < u64::MAX,
        ensures
            id == ObjectId(old(self).next_object()),
            final(self).next_object() == old(self).next_object() + 1,
            final(self).next_tx() == old(self).next_tx(),
    {
        let id = ObjectId(self.object_counter);
        self.object_counter = self.object_counter + 1;
        id
    }

    /// Generate a fresh [`TxId`]: the transaction counter's value, after which
    /// the counter advances by one. The object counter is untouched.
    pub fn next_tx_id(&mut self) -> (id: TxId)
        requires
            old(self).next_tx() < u64::MAX,
        ensures
            id == TxId(old(self).next_tx()),
            final(self).next_tx() == old(self).next_tx() + 1,
            final(self).next_object() == old(self).next_object(),
    {
        let id = TxId(self.tx_counter);
        self.tx_counter = self.tx_counter + 1;
        id
    }

    /// Whether another object id can be issued (the counter has not reached
    /// `u64::MAX`).
    pub fn can_issue_object_id(&self) -> (b: bool)
        ensures
            b == (self.next_object() < u64::MAX),
    {
        self.object_counter < u64::MAX
    }

    /// Whether another transaction id can be issued.
    pub fn can_issue_tx_id(&self) -> (b: bool)
        ensures
            b == (self.next_tx() < u64::MAX),
    {
        self.tx_counter < u64::MAX
    }
}

impl Default for FreshIdGen {
    fn default() -> (g: Self)
        ensures
            g.next_object() == 0,
            g.next_tx() == 0,
    {
        Self::new()
    }
}

/// `after` is `before` after one draw: of a transaction id when `tx`, of an
/// object id otherwise (what `next_tx_id` and `next_object_id` ensure).
pub open spec fn drew(before: FreshIdGen, after: FreshIdGen, tx: bool) -> bool {
    if tx {
        after.next_tx() == before.next_tx() + 1 && after.next_object() == before.next_object()
    } else {
        after.next_object() == before.next_object() + 1 && after.next_tx() == before.next_tx()
    }
}

/// Ids count the draws: starting from a new generator, after any sequence of
/// draws (`kinds[i]` is whether draw `i` is of a transaction id) the next
/// transaction id is the number of transaction ids drawn so far and the next
/// object id the number of object ids drawn so far. So the `m`-th
/// transaction id drawn is `m - 1`, the `k`-th object id is `k - 1`, and
/// drawing one kind leaves the other counter alone.
pub proof fn lemma_ids_count_draws(gens: Seq<FreshIdGen>, kinds: Seq<bool>)
    requires
        gens.len() == kinds.len() + 1,
        gens[0].next_object() == 0,
        gens[0].next_tx() == 0,
        forall|i: int| #![trigger kinds[i]] 0 <= i < kinds.len() ==> drew(gens[i], gens[i + 1], kinds[i]),
    ensures
        forall|i: int|
            0 <= i <= kinds.len() ==> #[trigger] gens[i].next_tx() == count_true(kinds.take(i))
                && gens[i].next_object() == i - count_true(kinds.take(i)),
    decreases kinds.len(),
{
    if kinds.len() > 0 {
        let n = kinds.len() as int;
        let g0 = gens.drop_last();
        let k0 = kinds.drop_last();
        assert forall|i: int| #![trigger k0[i]] 0 <= i < k0.len() implies drew(g0[i], g0[i + 1], k0[i]) by {
            assert(kinds[i] == k0[i]);
        }
        lemma_ids_count_draws(g0, k0);
        assert forall|i: int| 0 <= i <= n implies #[trigger] gens[i].next_tx() == count_true(kinds.take(i))
            && gens[i].next_object() == i - count_true(kinds.take(i)) by {
            if i < n {
                assert(g0[i] == gens[i]);
                assert(k0.take(i) =~= kinds.take(i));
            } else {
                assert(g0[n - 1] == gens[n - 1]);
                assert(k0.take(n - 1) =~= k0);
                assert(kinds.take(n) =~= kinds);
                assert(kinds.take(n).drop_last() =~= k0);
                assert(kinds[n - 1] == kinds.last());
                assert(drew(gens[n - 1], gens[n], kinds[n - 1]));
            }
        }
    }
}

/// Along a chain of draws neither counter ever goes down.
proof fn lemma_counters_grow(gens: Seq<FreshIdGen>, kinds: Seq<bool>, i: int, j: int)
    requires
        gens.len() == kinds.len() + 1,
        forall|k: int| #![trigger kinds[k]] 0 <= k < kinds.len() ==> drew(gens[k], gens[k + 1], kinds[k]),
        0 <= i <= j <= kinds.len(),
    ensures
        gens[i].next_tx() <= gens[j].next_tx(),
        gens[i].next_object() <= gens[j].next_object(),
    decreases j - i,
{
    if i < j {
        lemma_counters_grow(gens, kinds, i, j - 1);
        assert(drew(gens[j - 1], gens[j], kinds[j - 1]));
    }
}

/// Ids drawn from one generator never repeat: along any chain of draws
/// (`kinds[k]` is whether draw `k` is of a transaction id, which issues
/// `TxId(gens[k].next_tx())`; otherwise it issues
/// `ObjectId(gens[k].next_object())`), two draws of the same kind issue
/// different ids, the later one larger.
pub proof fn lemma_fresh_ids_distinct(gens: Seq<FreshIdGen>, kinds: Seq<bool>)
    requires
        gens.len() == kinds.len() + 1,
        forall|k: int| #![trigger kinds[k]] 0 <= k < kinds.len() ==> drew(gens[k], gens[k + 1], kinds[k]),
    ensures
        forall|i: int, j: int|
            #![trigger kinds[i], kinds[j]]
            0 <= i < j < kinds.len() && kinds[i] && kinds[j] ==> TxId(gens[i].next_tx()) != TxId(
                gens[j].next_tx(),
            ) && gens[i].next_tx() < gens[j].next_tx(),
        forall|i: int, j: int|
            #![trigger kinds[i], kinds[j]]
            0 <= i < j < kinds.len() && !kinds[i] && !kinds[j] ==> ObjectId(gens[i].next_object())
                != ObjectId(gens[j].next_object()) && gens[i].next_object() < gens[j].next_object(),
{
    assert forall|i: int, j: int|
        #![trigger kinds[i], kinds[j]]
        0 <= i < j < kinds.len() && kinds[i] == kinds[j] implies (kinds[i] ==> gens[i].next_tx()
        < gens[j].next_tx()) && (!kinds[i] ==> gens[i].next_object() < gens[j].next_object()) by {
        assert(drew(gens[i], gens[i + 1], kinds[i]));
        lemma_counters_grow(gens, kinds, i + 1, j);
    }
}

/// The ids of a generator made by [`FreshIdGen::new`]: its `m`-th
/// transaction id (drawn with `next_tx_id`) is `TxId(m - 1)` and its `n`-th
/// object id is `ObjectId(n - 1)`, however the two kinds of draws are
/// interleaved. In the terms of [`lemma_ids_count_draws`]: draw `i` issues
/// the number of draws of its kind before it.
pub proof fn lemma_nth_ids(gens: Seq<FreshIdGen>, kinds: Seq<bool>)
    requires
        gens.len() == kinds.len() + 1,
        gens[0].next_object() == 0,
        gens[0].next_tx() == 0,
        forall|k: int| #![trigger kinds[k]] 0 <= k < kinds.len() ==> drew(gens[k], gens[k + 1], kinds[k]),
    ensures
        forall|i: int|
            #![trigger kinds[i]]
            0 <= i < kinds.len() && kinds[i] ==> TxId(gens[i].next_tx()) == TxId(
                count_true(kinds.take(i)) as u64,
            ),
        forall|i: int|
            #![trigger kinds[i]]
            0 <= i < kinds.len() && !kinds[i] ==> ObjectId(gens[i].next_object()) == ObjectId(
                (i - count_true(kinds.take(i))) as u64,
            ),
{
    lemma_ids_count_draws(gens, kinds);
    assert forall|i: int| #![trigger kinds[i]] 0 <= i < kinds.len() implies gens[i].next_tx()
        == count_true(kinds.take(i)) && gens[i].next_object() == i - count_true(kinds.take(i)) by {
        assert(gens[i].next_tx() == count_true(kinds.take(i)));
    }
}

/// Each draw advances only the counter it draws from, by one, so ids drawn
/// one after another never repeat: if `g1` issued object id `a` and became
/// `g2`, which issued `b`, then `a < b`; drawing a transaction id in between
/// does not change the next object id (and the other way round).
pub proof fn lemma_fresh_ids_increase(g1: FreshIdGen, g2: FreshIdGen, g3: FreshIdGen)
    requires
        g2.next_object() == g1.next_object() + 1,
        g2.next_tx() == g1.next_tx(),
        g3.next_tx() == g2.next_tx() + 1,
        g3.next_object() == g2.next_object(),
    ensures
        g1.next_object() < g3.next_object(),
        g1.next_tx() < g3.next_tx(),
        ObjectId(g1.next_object()) != ObjectId(g3.next_object()),
        TxId(g1.next_tx()) != TxId(g3.next_tx()),
{
}

} // verus!
