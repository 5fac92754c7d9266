use avm_core::interpreter::helpers::{
    apply_creates, apply_destroys, apply_states, apply_transfers, apply_writes, log_event,
    validate_observed,
};
use avm_core::interpreter::obj::{enter_call_context, restore_call_context};
use avm_core::store::{MetaStore, ObjectBehavior, ObjectStore, StateStore, Store};
use avm_core::trace::EventType;
use avm_core::types::{ControllerId, MachineId, ObjectId, ObjectMeta, TxId, Val};
use avm_core::vm::state::CreateEntry;
use avm_core::vm::State;

fn test_object_id() -> ObjectId {
    ObjectId(99)
}

fn test_state() -> State<()> {
    State::new(MachineId("local".into()))
}

fn local_meta(id: ObjectId) -> ObjectMeta {
    ObjectMeta {
        object_id: id,
        machine: MachineId("local".into()),
        creating_controller: None,
        current_controller: None,
    }
}

#[test]
fn empty_store() {
    let store = Store::new();
    assert!(!store.contains(&test_object_id()));
}

#[test]
fn insert_and_lookup() {
    let mut store = Store::new();
    let id = test_object_id();
    store.objects.insert(id, ObjectBehavior::named("test"));
    store.metadata.insert(id, local_meta(id));
    store.states.insert(id, vec![Val::Nat(0)]);
    assert!(store.contains(&id));
    assert_eq!(store.states.get(&id), Some(&vec![Val::Nat(0)]));
}

#[test]
fn remove_clears_all() {
    let mut store = Store::new();
    let id = test_object_id();
    store.objects.insert(id, ObjectBehavior::named("x"));
    store.metadata.insert(id, local_meta(id));
    store.states.insert(id, vec![]);
    store.remove(&id);
    assert!(!store.contains(&id));
    assert!(store.states.get(&id).is_none());
}

#[test]
fn stores_report_their_contents() {
    let mut objects = ObjectStore::default();
    objects.insert(ObjectId(3), ObjectBehavior::named("a"));
    objects.insert(ObjectId(5), ObjectBehavior::named("b"));
    let mut entries: Vec<(ObjectId, String)> =
        objects.iter().into_iter().map(|(id, b)| (id, b.name.clone())).collect();
    entries.sort_by_key(|e| e.0 .0);
    assert_eq!(entries, vec![(ObjectId(3), "a".to_string()), (ObjectId(5), "b".to_string())]);
    assert_eq!(objects.get(&ObjectId(5)).map(|b| b.name.clone()), Some("b".to_string()));
    assert_eq!(objects.remove(&ObjectId(3)).map(|b| b.name), Some("a".to_string()));
    assert!(!objects.contains(&ObjectId(3)));

    let mut metas = MetaStore::new();
    metas.insert(ObjectId(1), local_meta(ObjectId(1)));
    assert_eq!(metas.iter(), vec![(ObjectId(1), &local_meta(ObjectId(1)))]);
    assert_eq!(metas.get(&ObjectId(1)), Some(&local_meta(ObjectId(1))));
    assert_eq!(metas.remove(&ObjectId(1)), Some(local_meta(ObjectId(1))));
    assert!(metas.get(&ObjectId(1)).is_none());

    let mut states = StateStore::new();
    states.insert(ObjectId(2), vec![Val::Bool(true)]);
    assert_eq!(states.remove(&ObjectId(2)), Some(vec![Val::Bool(true)]));
    assert_eq!(states.remove(&ObjectId(2)), None);
    assert!(!Store::default().contains(&ObjectId(0)));
}

#[test]
fn new_state_has_no_tx() {
    let state = test_state();
    assert!(!state.in_transaction());
    assert!(state.tx_log.is_empty());
}

#[test]
fn timestamp_increments() {
    let mut state = test_state();
    assert_eq!(state.next_timestamp(), 0);
    assert_eq!(state.next_timestamp(), 1);
    assert_eq!(state.next_timestamp(), 2);
}

#[test]
fn observe_deduplicates() {
    let mut state = test_state();
    let id = ObjectId(42);
    state.observe(id);
    state.observe(id);
    assert_eq!(state.observed.len(), 1);
}

#[test]
fn clear_tx_overlay_resets() {
    let mut state = test_state();
    state.tx = Some(TxId(1));
    state.tx_log.push((ObjectId(10), Val::Nat(0)));
    state.destroys.insert(20);
    state.clear_tx_overlay();
    assert!(!state.in_transaction());
    assert!(state.tx_log.is_empty());
    assert!(state.destroys.is_empty());
}

#[test]
fn abort_rolls_back_store_mutations() {
    let mut state = test_state();
    let existing_id = ObjectId(1);
    state.store.objects.insert(existing_id, ObjectBehavior::named("existing"));
    state.store.metadata.insert(existing_id, local_meta(existing_id));
    state.store.states.insert(existing_id, vec![]);

    state.tx = Some(TxId(0));
    state.tx_snapshot = Some(state.store.clone());

    let new_id = ObjectId(42);
    state.store.objects.insert(new_id, ObjectBehavior::named("transient"));
    state.store.metadata.insert(new_id, local_meta(new_id));
    state.store.states.insert(new_id, vec![]);

    assert!(state.store.contains(&new_id), "object must exist before abort");
    state.clear_tx_overlay();
    assert!(!state.store.contains(&new_id), "aborted object must be gone after rollback");
    assert!(
        state.store.contains(&existing_id),
        "pre-existing object must still be present after rollback"
    );
    assert!(!state.in_transaction());
    assert!(state.tx_snapshot.is_none());
}

#[test]
fn log_event_increments_timestamp() {
    let mut state = test_state();
    let e1 = log_event(&mut state, EventType::TransactionStarted(TxId(0)));
    let e2 = log_event(&mut state, EventType::TransactionAborted(TxId(0)));
    assert_eq!(e1.timestamp, 0);
    assert_eq!(e2.timestamp, 1);
}

#[test]
fn apply_creates_populates_store() {
    let mut state = test_state();
    state.creates.insert(
        1,
        CreateEntry { id: ObjectId(1), behavior_name: "test".into(), controller: None },
    );
    apply_creates(&mut state);
    assert!(state.store.contains(&ObjectId(1)));
    assert!(state.creates.is_empty());
}

#[test]
fn apply_destroys_removes_from_store() {
    let mut state = test_state();
    state.creates.insert(
        2,
        CreateEntry { id: ObjectId(2), behavior_name: "x".into(), controller: None },
    );
    apply_creates(&mut state);
    assert!(state.store.contains(&ObjectId(2)));
    state.destroys.insert(2);
    apply_destroys(&mut state);
    assert!(!state.store.contains(&ObjectId(2)));
}

#[test]
fn with_call_context_saves_and_restores() {
    let mut state = test_state();
    state.self_id = ObjectId(10);
    state.input = Val::Nat(1);
    let saved = enter_call_context(
        &mut state,
        ObjectId(20),
        Val::Nat(99),
        ObjectId(10),
        MachineId("local".into()),
    );
    assert_eq!(state.self_id, ObjectId(20));
    assert_eq!(state.input, Val::Nat(99));
    assert_eq!(state.sender, Some(ObjectId(10)));
    restore_call_context(&mut state, saved);
    assert_eq!(state.self_id, ObjectId(10));
    assert_eq!(state.input, Val::Nat(1));
}

#[test]
fn created_objects_get_local_metadata_and_empty_state() {
    let mut state = test_state();
    let ctrl = Some(ControllerId("c".into()));
    state.creates.insert(
        4,
        CreateEntry { id: ObjectId(4), behavior_name: "w".into(), controller: ctrl.clone() },
    );
    apply_creates(&mut state);
    let meta = state.store.metadata.get(&ObjectId(4)).unwrap();
    assert_eq!(meta.machine, MachineId("local".into()));
    assert_eq!(meta.creating_controller, ctrl);
    assert_eq!(meta.current_controller, ctrl);
    assert_eq!(state.store.states.get(&ObjectId(4)), Some(&vec![]));
    assert_eq!(state.store.objects.get(&ObjectId(4)).unwrap().name, "w");
}

#[test]
fn pending_writes_states_and_transfers_are_applied() {
    let mut state = test_state();
    let id = ObjectId(7);
    state.store.objects.insert(id, ObjectBehavior::named("o"));
    state.store.metadata.insert(id, local_meta(id));
    state.store.states.insert(id, vec![]);
    state.tx_log.push((id, Val::Nat(1)));
    state.pending_states.push((id, vec![Val::Nat(1)]));
    state.pending_states.push((id, vec![Val::Nat(2)]));
    state.pending_transfers.push((id, ControllerId("a".into())));
    state.pending_transfers.push((ObjectId(8), ControllerId("b".into())));
    state.pending_transfers.push((id, ControllerId("c".into())));
    apply_writes(&mut state);
    apply_states(&mut state);
    apply_transfers(&mut state);
    assert!(state.tx_log.is_empty());
    assert!(state.pending_states.is_empty());
    assert!(state.pending_transfers.is_empty());
    // The last pending update of an object wins.
    assert_eq!(state.store.states.get(&id), Some(&vec![Val::Nat(2)]));
    assert_eq!(
        state.store.metadata.get(&id).unwrap().current_controller,
        Some(ControllerId("c".into()))
    );
    // A transfer of an object without metadata changes nothing.
    assert!(state.store.metadata.get(&ObjectId(8)).is_none());
}

#[test]
fn read_set_conflicts_are_detected() {
    let mut state = test_state();
    state.tx = Some(TxId(3));
    state.observe(ObjectId(1));
    assert!(validate_observed(&state).unwrap_err().is_conflict());
    state.destroys.insert(1);
    assert!(validate_observed(&state).is_ok());
    state.destroys.clear();
    state.store.objects.insert(ObjectId(1), ObjectBehavior::named("o"));
    assert!(validate_observed(&state).is_ok());
}

#[test]
fn meta_store_get_mut_edits_in_place() {
    let mut metas = MetaStore::new();
    metas.insert(ObjectId(1), local_meta(ObjectId(1)));
    if let Some(meta) = metas.get_mut(&ObjectId(1)) {
        meta.machine = MachineId("far".into());
    }
    assert_eq!(metas.get(&ObjectId(1)).unwrap().machine, MachineId("far".into()));
    assert!(metas.get_mut(&ObjectId(2)).is_none());
}
