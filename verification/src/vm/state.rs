//! Global VM state.
//!
//! The [`State`] struct holds all mutable state of an AVM execution: the
//! persistent store, the transaction overlay, the execution frame, and the
//! table of pure functions.
use crate::store::fx::fxset_insert;
use crate::store::Store;
use crate::vm::pure_fn::{FunctionEntry, PureFunctions};
use crate::types::{ControllerId, FreshIdGen, Input, MachineId, ObjectId, TxId, Val};
use rustc_hash::{FxHashMap, FxHashSet};
use vstd::prelude::*;

verus! {

/// A pending object creation within a transaction.
#[derive(Debug)]
pub struct CreateEntry {
    pub id: ObjectId,
    pub behavior_name: String,
    pub controller: Option<ControllerId>,
}

impl Clone for CreateEntry {
    fn clone(&self) -> (r: Self)
        ensures
            r == *self,
    {
        CreateEntry {
            id: self.id,
            behavior_name: self.behavior_name.clone(),
            controller: crate::types::ids::copy_controller(&self.controller),
        }
    }
}

/// The complete mutable state of an AVM execution.
///
/// The overlay maps and sets are keyed by object id numbers. `P` is the type
/// of the pure functions in the registry that `callPure` consults.
#[derive(Debug)]
pub struct State<P> {
    // Physical location.
    pub machine_id: MachineId,
    // Persistent storage.
    pub store: Store,
    pub pure_functions: PureFunctions<P>,
    // Transaction overlay.
    pub tx_log: Vec<(ObjectId, Input)>,
    pub creates: FxHashMap<u64, CreateEntry>,
    pub destroys: FxHashSet<u64>,
    pub observed: FxHashSet<u64>,
    pub pending_transfers: Vec<(ObjectId, ControllerId)>,
    pub pending_states: Vec<(ObjectId, Vec<Val>)>,
    pub tx: Option<TxId>,
    pub tx_controller: Option<ControllerId>,
    /// Snapshot of the store taken at transaction begin; restored on abort.
    pub tx_snapshot: Option<Store>,
    // Execution frame.
    pub self_id: ObjectId,
    pub input: Input,
    pub sender: Option<ObjectId>,
    pub trace_mode: bool,
    // Monotonic event counter.
    pub event_counter: u64,
    // Id generation.
    pub fresh_ids: FreshIdGen,
}

impl<P> State<P> {
    /// Well-formedness: every pending creation is filed under its own id.
    pub open spec fn wf(&self) -> bool {
        forall|k: u64| #[trigger] self.creates@.contains_key(k) ==> self.creates@[k].id.0 == k
    }

    /// Create a new state on the given machine, with an empty store, no
    /// transaction, self id `u64::MAX`, input `Nothing`, and zeroed counters.
    pub fn new(machine_id: MachineId) -> (s: Self)
        ensures
            s.machine_id == machine_id,
            s.pure_functions@ == Map::<Seq<char>, FunctionEntry<P>>::empty(),
            s.store@.objects.is_empty(),
            s.store@.metadata.is_empty(),
            s.store@.states.is_empty(),
            s.tx_log@.len() == 0,
            s.creates@.is_empty(),
            s.destroys@.is_empty(),
            s.observed@.is_empty(),
            s.pending_transfers@.len() == 0,
            s.pending_states@.len() == 0,
            s.tx is None,
            s.tx_controller is None,
            s.tx_snapshot is None,
            s.self_id == ObjectId(u64::MAX),
            s.input == Val::Nothing,
            s.sender is None,
            !s.trace_mode,
            s.event_counter == 0,
            s.fresh_ids.next_object() == 0,
            s.fresh_ids.next_tx() == 0,
            s.wf(),
    {
        Self {
            machine_id,
            store: Store::new(),
            pure_functions: PureFunctions::new(),
            tx_log: Vec::new(),
            creates: FxHashMap::default(),
            destroys: FxHashSet::default(),
            observed: FxHashSet::default(),
            pending_transfers: Vec::new(),
            pending_states: Vec::new(),
            tx: None,
            tx_controller: None,
            tx_snapshot: None,
            self_id: ObjectId(u64::MAX),
            input: Val::Nothing,
            sender: None,
            trace_mode: false,
            event_counter: 0,
            fresh_ids: FreshIdGen::new(),
        }
    }

    /// Return the event counter's value and advance it by one.
    pub fn next_timestamp(&mut self) -> (ts: u64)
        requires
            old(self).event_counter < u64::MAX,
        ensures
            ts == old(self).event_counter,
            *final(self) == (State { event_counter: (ts + 1) as u64, ..*old(self) }),
    {
        let ts = self.event_counter;
        self.event_counter = self.event_counter + 1;
        ts
    }

    /// Whether a transaction is currently active.
    pub fn in_transaction(&self) -> (b: bool)
        ensures
            b == self.tx is Some,
    {
        self.tx.is_some()
    }

    /// Record an object as observed (part of the read set).
    pub fn observe(&mut self, id: ObjectId)
        ensures
            final(self).observed@ == old(self).observed@.insert(id.0),
            *final(self) == (State { observed: final(self).observed, ..*old(self) }),
    {
        fxset_insert(&mut self.observed, id.0);
    }

    /// Clear all transaction overlay state (used by abort). If a snapshot
    /// was taken at begin, the store is restored to it, rolling back every
    /// mutation made during the transaction.
    pub fn clear_tx_overlay(&mut self)
        ensures
            overlay_cleared(*old(self), *final(self)),
            final(self).store@ == (match old(self).tx_snapshot {
                Some(snapshot) => snapshot@,
                None => old(self).store@,
            }),
            final(self).tx_snapshot is None,
            same_frame(*old(self), *final(self)),
            final(self).event_counter == old(self).event_counter,
            final(self).fresh_ids == old(self).fresh_ids,
    {
        self.tx_log.clear();
        self.creates.clear();
        self.destroys.clear();
        self.observed.clear();
        self.pending_transfers.clear();
        self.pending_states.clear();
        self.tx = None;
        self.tx_controller = None;
        if let Some(snapshot) = self.tx_snapshot.take() {
            self.store = snapshot;
        }
    }
}

/// The transaction overlay of `after` is empty and no transaction is active.
pub open spec fn overlay_cleared<P>(before: State<P>, after: State<P>) -> bool {
    &&& after.tx_log@.len() == 0
    &&& after.creates@.is_empty()
    &&& after.destroys@.is_empty()
    &&& after.observed@.is_empty()
    &&& after.pending_transfers@.len() == 0
    &&& after.pending_states@.len() == 0
    &&& after.tx is None
    &&& after.tx_controller is None
}

/// `before` and `after` have the same execution frame, machine, pure
/// functions and trace mode.
pub open spec fn same_frame<P>(before: State<P>, after: State<P>) -> bool {
    &&& after.machine_id == before.machine_id
    &&& after.pure_functions == before.pure_functions
    &&& after.self_id == before.self_id
    &&& after.input == before.input
    &&& after.sender == before.sender
    &&& after.trace_mode == before.trace_mode
}

} // verus!
