//! Interpreter helpers: log entries, read-set validation, applying a
//! committed transaction, and the call context.
use crate::error::{AVMError, TxError};
use crate::store::fx::{fx_keys, fx_remove, fxset_contains, fxset_elements};
use crate::store::{fx::fx_contains, ObjectBehavior, StoreView};
use crate::trace::{EventType, LogEntry};
use crate::types::ids::copy_controller;
use crate::types::val::{vals_view, ValView};
use crate::types::{ControllerId, MachineId, ObjectId, ObjectMeta, TxId, Val};
use crate::vm::{CreateEntry, State};
use vstd::prelude::*;
use vstd::std_specs::convert::FromSpec;

verus! {

/// The log entry for `event` in state `s`: stamped with the event counter and
/// the transaction's controller.
pub open spec fn entry_for<P>(s: State<P>, event: EventType) -> LogEntry {
    LogEntry { timestamp: s.event_counter, event_type: event, executing_controller: s.tx_controller }
}

/// Create a log entry with the current timestamp and controller, advancing
/// the event counter.
pub fn log_event<P>(state: &mut State<P>, event: EventType) -> (e: LogEntry)
    requires
        old(state).event_counter < u64::MAX,
    ensures
        e == entry_for(*old(state), event),
        *final(state) == (State { event_counter: (old(state).event_counter + 1) as u64, ..*old(state) }),
{
    let ts = state.next_timestamp();
    LogEntry::new(ts, event, copy_controller(&state.tx_controller))
}

/// Some observed object is neither destroyed by this transaction, nor in the
/// store, nor created by this transaction.
pub open spec fn read_set_conflict<P>(s: State<P>) -> bool {
    exists|k: u64|
        #![trigger s.observed@.contains(k)]
        s.observed@.contains(k) && !s.destroys@.contains(k) && !s.store@.objects.contains_key(k)
            && !s.creates@.contains_key(k)
}

/// The id that a conflict reports: the active transaction, or 0.
pub open spec fn conflict_tx<P>(s: State<P>) -> TxId {
    match s.tx {
        Some(t) => t,
        None => TxId(0),
    }
}

/// Validate the read set: no observed object may have disappeared, unless
/// this transaction destroyed it.
pub fn validate_observed<P>(state: &State<P>) -> (r: Result<(), AVMError>)
    ensures
        r is Ok <==> !read_set_conflict(*state),
        r is Err ==> r == Err::<(), AVMError>(
            <AVMError as FromSpec<TxError>>::from_spec(TxError::Conflict(conflict_tx(*state))),
        ),
{
    let observed = fxset_elements(&state.observed);
    let mut i: usize = 0;
    while i < observed.len()
        invariant
            i <= observed@.len(),
            observed@.to_set() == state.observed@,
            forall|j: int|
                0 <= j < i ==> {
                    let k = #[trigger] observed@[j];
                    state.destroys@.contains(k) || state.store@.objects.contains_key(k)
                        || state.creates@.contains_key(k)
                },
        decreases observed@.len() - i,
    {
        let oid = observed[i];
        if !fxset_contains(&state.destroys, oid) && !state.store.objects.contains(&ObjectId(oid))
            && !fx_contains(&state.creates, oid) {
            proof {
                assert(observed@.contains(oid));
                assert(state.observed@.contains(oid));
            }
            let tx = match state.tx {
                Some(t) => t,
                None => TxId(0),
            };
            return Err(AVMError::from(TxError::Conflict(tx)));
        }
        i = i + 1;
    }
    proof {
        assert forall|k: u64| state.observed@.contains(k) implies state.destroys@.contains(k)
            || state.store@.objects.contains_key(k) || state.creates@.contains_key(k) by {
            assert(observed@.to_set().contains(k));
            let j = choose|j: int| 0 <= j < observed@.len() && #[trigger] observed@[j] == k;
        }
    }
    Ok(())
}

/// The behaviors after the creations `creates` are applied to `objects`.
pub open spec fn objects_with_creates(
    objects: Map<u64, ObjectBehavior>,
    creates: Map<u64, CreateEntry>,
) -> Map<u64, ObjectBehavior> {
    Map::new(
        |k: u64| objects.contains_key(k) || creates.contains_key(k),
        |k: u64|
            if creates.contains_key(k) {
                ObjectBehavior { name: creates[k].behavior_name }
            } else {
                objects[k]
            },
    )
}

/// The metadata after the creations `creates` are applied on `machine`: each
/// new object is placed on the machine, and its controller is both its
/// creating and its current controller.
pub open spec fn metadata_with_creates(
    metadata: Map<u64, ObjectMeta>,
    creates: Map<u64, CreateEntry>,
    machine: MachineId,
) -> Map<u64, ObjectMeta> {
    Map::new(
        |k: u64| metadata.contains_key(k) || creates.contains_key(k),
        |k: u64|
            if creates.contains_key(k) {
                ObjectMeta {
                    object_id: creates[k].id,
                    machine,
                    creating_controller: creates[k].controller,
                    current_controller: creates[k].controller,
                }
            } else {
                metadata[k]
            },
    )
}

/// The states after the creations `creates` are applied: each new object
/// starts with an empty state, the others keep theirs.
pub open spec fn states_with_creates(
    states: Map<u64, Seq<ValView>>,
    creates: Map<u64, CreateEntry>,
) -> Map<u64, Seq<ValView>> {
    Map::new(
        |k: u64| states.contains_key(k) || creates.contains_key(k),
        |k: u64|
            if creates.contains_key(k) {
                Seq::empty()
            } else {
                states[k]
            },
    )
}

proof fn lemma_take_to_set_step(s: Seq<u64>, i: int)
    requires
        0 <= i < s.len(),
    ensures
        s.take(i + 1).to_set() == s.take(i).to_set().insert(s[i]),
{
    let t0 = s.take(i);
    let t1 = s.take(i + 1);
    assert forall|x: u64| t1.to_set().contains(x) == t0.to_set().insert(s[i]).contains(x) by {
        if t1.contains(x) {
            let j = choose|j: int| 0 <= j < t1.len() && #[trigger] t1[j] == x;
            if j < i {
                assert(t0[j] == x);
            }
        }
        if t0.contains(x) {
            let j = choose|j: int| 0 <= j < t0.len() && #[trigger] t0[j] == x;
            assert(t1[j] == x);
        }
        if x == s[i] {
            assert(t1[i] == x);
        }
    }
    assert(t1.to_set() =~= t0.to_set().insert(s[i]));
}

proof fn lemma_no_dup_not_in_prefix(s: Seq<u64>, i: int)
    requires
        0 <= i < s.len(),
        s.no_duplicates(),
    ensures
        !s.take(i).to_set().contains(s[i]),
{
    let t0 = s.take(i);
    if t0.contains(s[i]) {
        let j = choose|j: int| 0 <= j < t0.len() && #[trigger] t0[j] == s[i];
        assert(s[j] == s[i]);
    }
}

/// Apply all pending creations to the store, leaving none pending.
pub fn apply_creates<P>(state: &mut State<P>)
    requires
        old(state).wf(),
    ensures
        final(state).store@.objects == objects_with_creates(
            old(state).store@.objects,
            old(state).creates@,
        ),
        final(state).store@.metadata == metadata_with_creates(
            old(state).store@.metadata,
            old(state).creates@,
            old(state).machine_id,
        ),
        final(state).store@.states == states_with_creates(old(state).store@.states, old(state).creates@),
        final(state).creates@.is_empty(),
        *final(state) == (State { store: final(state).store, creates: final(state).creates, ..*old(state) }),
{
    let keys = fx_keys(&state.creates);
    let ghost creates0 = old(state).creates@;
    let ghost objects0 = old(state).store@.objects;
    let ghost metadata0 = old(state).store@.metadata;
    let ghost states0 = old(state).store@.states;
    let mut i: usize = 0;
    while i < keys.len()
        invariant
            i <= keys@.len(),
            keys@.no_duplicates(),
            keys@.to_set() == creates0.dom(),
            forall|k: u64| #[trigger] creates0.contains_key(k) ==> creates0[k].id.0 == k,
            state.creates@ == creates0.remove_keys(keys@.take(i as int).to_set()),
            state.store@.objects == objects_with_creates(
                objects0,
                creates0.restrict(keys@.take(i as int).to_set()),
            ),
            state.store@.metadata == metadata_with_creates(
                metadata0,
                creates0.restrict(keys@.take(i as int).to_set()),
                state.machine_id,
            ),
            state.store@.states == states_with_creates(
                states0,
                creates0.restrict(keys@.take(i as int).to_set()),
            ),
            *state == (State { store: state.store, creates: state.creates, ..*old(state) }),
        decreases keys@.len() - i,
    {
        let k = keys[i];
        let ghost done = keys@.take(i as int).to_set();
        proof {
            lemma_take_to_set_step(keys@, i as int);
            lemma_no_dup_not_in_prefix(keys@, i as int);
            assert(keys@.to_set().contains(k));
        }
        let entry = fx_remove(&mut state.creates, k);
        let entry = entry.unwrap();
        let id = entry.id;
        let meta = ObjectMeta {
            object_id: id,
            machine: state.machine_id.clone(),
            creating_controller: copy_controller(&entry.controller),
            current_controller: entry.controller,
        };
        state.store.objects.insert(id, ObjectBehavior { name: entry.behavior_name });
        state.store.metadata.insert(id, meta);
        let empty: Vec<Val> = Vec::new();
        state.store.states.insert(id, empty);
        proof {
            let done2 = keys@.take(i + 1).to_set();
            assert(done2 == done.insert(k));
            assert(vals_view(empty@) =~= Seq::<ValView>::empty());
            assert(state.store@.states =~= states_with_creates(states0, creates0.restrict(done2)));
            assert(state.creates@ =~= creates0.remove_keys(done2));
            assert(state.store@.objects =~= objects_with_creates(objects0, creates0.restrict(done2)));
            assert(state.store@.metadata =~= metadata_with_creates(
                metadata0,
                creates0.restrict(done2),
                state.machine_id,
            ));
        }
        i = i + 1;
    }
    proof {
        assert(keys@.take(keys@.len() as int) =~= keys@);
        assert(creates0.restrict(keys@.to_set()) =~= creates0);
        assert(state.creates@ =~= Map::<u64, CreateEntry>::empty());
    }
}

/// Apply all pending writes: the calls in the transaction log have already
/// taken effect, so the log is cleared.
pub fn apply_writes<P>(state: &mut State<P>)
    ensures
        final(state).tx_log@.len() == 0,
        *final(state) == (State { tx_log: final(state).tx_log, ..*old(state) }),
{
    state.tx_log.clear();
}

/// The metadata after the transfers `ts` are applied in order: each transfer
/// sets the current controller of an object that has metadata, and is
/// skipped for an object that has none.
pub open spec fn metadata_with_transfers(
    metadata: Map<u64, ObjectMeta>,
    ts: Seq<(ObjectId, ControllerId)>,
) -> Map<u64, ObjectMeta>
    decreases ts.len(),
{
    if ts.len() == 0 {
        metadata
    } else {
        let m = metadata_with_transfers(metadata, ts.drop_last());
        let (oid, c) = ts.last();
        if m.contains_key(oid.0) {
            m.insert(oid.0, ObjectMeta { current_controller: Some(c), ..m[oid.0] })
        } else {
            m
        }
    }
}

/// Apply all pending transfers, in order, leaving none pending.
pub fn apply_transfers<P>(state: &mut State<P>)
    ensures
        final(state).store@.metadata == metadata_with_transfers(
            old(state).store@.metadata,
            old(state).pending_transfers@,
        ),
        final(state).store@.objects == old(state).store@.objects,
        final(state).store@.states == old(state).store@.states,
        final(state).pending_transfers@.len() == 0,
        *final(state) == (State {
            store: final(state).store,
            pending_transfers: final(state).pending_transfers,
            ..*old(state)
        }),
{
    let mut ts: Vec<(ObjectId, ControllerId)> = Vec::new();
    std::mem::swap(&mut ts, &mut state.pending_transfers);
    let ghost meta0 = old(state).store@.metadata;
    let mut i: usize = 0;
    while i < ts.len()
        invariant
            i <= ts@.len(),
            ts@ == old(state).pending_transfers@,
            state.pending_transfers@.len() == 0,
            state.store@.metadata == metadata_with_transfers(meta0, ts@.take(i as int)),
            state.store@.objects == old(state).store@.objects,
            state.store@.states == old(state).store@.states,
            *state == (State {
                store: state.store,
                pending_transfers: state.pending_transfers,
                ..*old(state)
            }),
        decreases ts@.len() - i,
    {
        proof {
            assert(ts@.take(i + 1).drop_last() =~= ts@.take(i as int));
        }
        let oid = ts[i].0;
        let controller = ts[i].1.clone();
        match state.store.metadata.get_mut(&oid) {
            Some(meta) => {
                meta.current_controller = Some(controller);
            },
            None => {},
        }
        i = i + 1;
    }
    proof {
        assert(ts@.take(ts@.len() as int) =~= ts@);
    }
}

/// The states after the updates `updates` are applied in order: each update
/// replaces one object's state.
pub open spec fn states_with_updates(
    states: Map<u64, Seq<ValView>>,
    updates: Seq<(ObjectId, Vec<Val>)>,
) -> Map<u64, Seq<ValView>>
    decreases updates.len(),
{
    if updates.len() == 0 {
        states
    } else {
        states_with_updates(states, updates.drop_last()).insert(
            updates.last().0.0,
            vals_view(updates.last().1@),
        )
    }
}

/// Apply all pending state updates, in order, leaving none pending.
pub fn apply_states<P>(state: &mut State<P>)
    ensures
        final(state).store@.states == states_with_updates(
            old(state).store@.states,
            old(state).pending_states@,
        ),
        final(state).store@.objects == old(state).store@.objects,
        final(state).store@.metadata == old(state).store@.metadata,
        final(state).pending_states@.len() == 0,
        *final(state) == (State {
            store: final(state).store,
            pending_states: final(state).pending_states,
            ..*old(state)
        }),
{
    let mut pending: Vec<(ObjectId, Vec<Val>)> = Vec::new();
    std::mem::swap(&mut pending, &mut state.pending_states);
    let ghost all = old(state).pending_states@;
    let ghost states0 = old(state).store@.states;
    let ghost mut done: int = 0;
    while pending.len() > 0
        invariant
            0 <= done <= all.len(),
            pending@ == all.skip(done),
            state.pending_states@.len() == 0,
            state.store@.states == states_with_updates(states0, all.take(done)),
            state.store@.objects == old(state).store@.objects,
            state.store@.metadata == old(state).store@.metadata,
            *state == (State {
                store: state.store,
                pending_states: state.pending_states,
                ..*old(state)
            }),
        decreases pending@.len(),
    {
        let (oid, st) = pending.remove(0);
        proof {
            assert(all.take(done + 1).drop_last() =~= all.take(done));
            assert(all.take(done + 1).last() == all[done]);
            assert(pending@ =~= all.skip(done + 1));
            done = done + 1;
        }
        state.store.states.insert(oid, st);
    }
    proof {
        assert(all.take(done) =~= all);
    }
}

/// Apply all pending destroys: each destroyed object leaves all three maps.
pub fn apply_destroys<P>(state: &mut State<P>)
    ensures
        final(state).store@ == (StoreView {
            objects: old(state).store@.objects.remove_keys(old(state).destroys@),
            metadata: old(state).store@.metadata.remove_keys(old(state).destroys@),
            states: old(state).store@.states.remove_keys(old(state).destroys@),
        }),
        final(state).destroys@.is_empty(),
        *final(state) == (State { store: final(state).store, destroys: final(state).destroys, ..*old(state) }),
{
    let ids = fxset_elements(&state.destroys);
    let ghost store0 = old(state).store@;
    proof {
        let d0 = ids@.take(0).to_set();
        assert(d0 =~= Set::<u64>::empty());
        assert(store0.objects.remove_keys(d0) =~= store0.objects);
        assert(store0.metadata.remove_keys(d0) =~= store0.metadata);
        assert(store0.states.remove_keys(d0) =~= store0.states);
    }
    let mut i: usize = 0;
    while i < ids.len()
        invariant
            i <= ids@.len(),
            ids@.to_set() == old(state).destroys@,
            state.store@ == (StoreView {
                objects: store0.objects.remove_keys(ids@.take(i as int).to_set()),
                metadata: store0.metadata.remove_keys(ids@.take(i as int).to_set()),
                states: store0.states.remove_keys(ids@.take(i as int).to_set()),
            }),
            *state == (State { store: state.store, ..*old(state) }),
        decreases ids@.len() - i,
    {
        proof {
            lemma_take_to_set_step(ids@, i as int);
        }
        state.store.remove(&ObjectId(ids[i]));
        proof {
            let d2 = ids@.take(i + 1).to_set();
            assert(state.store@.objects =~= store0.objects.remove_keys(d2));
            assert(state.store@.metadata =~= store0.metadata.remove_keys(d2));
            assert(state.store@.states =~= store0.states.remove_keys(d2));
        }
        i = i + 1;
    }
    proof {
        assert(ids@.take(ids@.len() as int) =~= ids@);
    }
    state.destroys.clear();
}

} // verus!
