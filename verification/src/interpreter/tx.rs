//! Transaction instruction handler: begin, commit, abort.
use super::dispatch::HandlerResult;
use super::helpers::{
    apply_creates, apply_destroys, apply_states, apply_transfers, apply_writes,
    log_event, metadata_with_creates, metadata_with_transfers, objects_with_creates,
    read_set_conflict, states_with_creates, states_with_updates, validate_observed,
};
use crate::error::{AVMError, TxError};
use crate::instruction::TxInstruction;
use crate::store::StoreView;
use crate::trace::{EventType, LogEntry};
use crate::types::{ControllerId, TxId, Val};
use crate::vm::state::{overlay_cleared, same_frame};
use crate::vm::State;
use vstd::prelude::*;
use vstd::std_specs::convert::FromSpec;

verus! {

/// The error for a transaction-layer failure.
pub open spec fn tx_err(e: TxError) -> AVMError {
    <AVMError as FromSpec<TxError>>::from_spec(e)
}

/// The store that committing the transaction of `s` produces: creations are
/// applied first, then transfers, then state updates, then destroys.
pub open spec fn committed_store<P>(s: State<P>) -> StoreView {
    StoreView {
        objects: objects_with_creates(s.store@.objects, s.creates@).remove_keys(s.destroys@),
        metadata: metadata_with_transfers(
            metadata_with_creates(s.store@.metadata, s.creates@, s.machine_id),
            s.pending_transfers@,
        ).remove_keys(s.destroys@),
        states: states_with_updates(
            states_with_creates(s.store@.states, s.creates@),
            s.pending_states@,
        ).remove_keys(s.destroys@),
    }
}

/// `after` is `before` with a transaction begun under `controller`: the next
/// transaction id is drawn, the controller recorded, the store snapshotted,
/// and one event stamped.
pub open spec fn begun<P>(
    before: State<P>,
    after: State<P>,
    controller: Option<ControllerId>,
    r: HandlerResult,
) -> bool {
    let t = TxId(before.fresh_ids.next_tx());
    &&& r == Ok::<(Val, Option<LogEntry>), AVMError>(
        (
            Val::TxRef(t),
            Some(
                LogEntry {
                    timestamp: before.event_counter,
                    event_type: EventType::TransactionStarted(t),
                    executing_controller: controller,
                },
            ),
        ),
    )
    &&& after.tx == Some(t)
    &&& after.tx_controller == controller
    &&& after.tx_snapshot matches Some(snapshot) && snapshot@ == before.store@
    &&& after.fresh_ids.next_tx() == before.fresh_ids.next_tx() + 1
    &&& after.fresh_ids.next_object() == before.fresh_ids.next_object()
    &&& after == (State {
        tx: after.tx,
        tx_controller: after.tx_controller,
        tx_snapshot: after.tx_snapshot,
        fresh_ids: after.fresh_ids,
        event_counter: (before.event_counter + 1) as u64,
        ..before
    })
}

/// What beginning a transaction does: fail with `InvalidDuringTx`, changing
/// nothing, when one is already active, and begin one otherwise.
pub open spec fn begin_outcome<P>(
    before: State<P>,
    after: State<P>,
    controller: Option<ControllerId>,
    r: HandlerResult,
) -> bool {
    &&& before.tx is Some ==> r == Err::<(Val, Option<LogEntry>), AVMError>(
        tx_err(TxError::InvalidDuringTx),
    ) && after == before
    &&& before.tx is None ==> begun(before, after, controller, r)
}

/// What beginning a transaction needs: room for another transaction id and
/// another event, unless the beginning fails.
pub open spec fn begin_ready<P>(s: State<P>) -> bool {
    s.tx is None ==> s.fresh_ids.next_tx() < u64::MAX && s.event_counter < u64::MAX
}

/// Begin a new transaction.
pub fn execute_begin<P>(controller: Option<ControllerId>, state: &mut State<P>) -> (r: HandlerResult)
    requires
        begin_ready(*old(state)),
    ensures
        begin_outcome(*old(state), *final(state), controller, r),
{
    if state.in_transaction() {
        return Err(AVMError::from(TxError::InvalidDuringTx));
    }
    let tx_id = state.fresh_ids.next_tx_id();
    state.tx = Some(tx_id);
    state.tx_controller = controller;
    state.tx_snapshot = Some(state.store.clone());
    let entry = log_event(state, EventType::TransactionStarted(tx_id));
    Ok((Val::TxRef(tx_id), Some(entry)))
}

/// `after` is `before` with its transaction committed: the store is
/// [`committed_store`], the overlay is empty, no snapshot is kept, and one
/// event is stamped (with no controller).
pub open spec fn committed<P>(before: State<P>, after: State<P>, id: TxId, r: HandlerResult) -> bool {
    &&& r == Ok::<(Val, Option<LogEntry>), AVMError>(
        (
            Val::Bool(true),
            Some(
                LogEntry {
                    timestamp: before.event_counter,
                    event_type: EventType::TransactionCommitted(id),
                    executing_controller: None,
                },
            ),
        ),
    )
    &&& after.store@ == committed_store(before)
    &&& overlay_cleared(before, after)
    &&& after.tx_snapshot is None
    &&& same_frame(before, after)
    &&& after.fresh_ids == before.fresh_ids
    &&& after.event_counter == before.event_counter + 1
}

/// `after` is `before` with its transaction rolled back: the store is the
/// snapshot taken at begin (if any), the overlay is empty and no snapshot is
/// kept.
pub open spec fn rolled_back<P>(before: State<P>, after: State<P>) -> bool {
    &&& after.store@ == (match before.tx_snapshot {
        Some(snapshot) => snapshot@,
        None => before.store@,
    })
    &&& overlay_cleared(before, after)
    &&& after.tx_snapshot is None
    &&& same_frame(before, after)
    &&& after.fresh_ids == before.fresh_ids
}

/// The refusal of a commit or abort of `id`: `NoActiveTx` when no
/// transaction is active, `NotFound(id)` when another one is.
pub open spec fn refused<P>(before: State<P>, after: State<P>, id: TxId, r: HandlerResult) -> bool {
    &&& before.tx is None ==> r == Err::<(Val, Option<LogEntry>), AVMError>(
        tx_err(TxError::NoActiveTx),
    )
    &&& (before.tx is Some && before.tx->0 != id) ==> r == Err::<(Val, Option<LogEntry>), AVMError>(
        tx_err(TxError::NotFound(id)),
    )
    &&& after == before
}

/// What committing `id` does: refuse when `id` is not the active
/// transaction; roll back and report `Conflict` when an observed object has
/// disappeared; commit otherwise.
pub open spec fn commit_outcome<P>(
    before: State<P>,
    after: State<P>,
    id: TxId,
    r: HandlerResult,
) -> bool {
    &&& before.tx != Some(id) ==> refused(before, after, id, r)
    &&& before.tx == Some(id) && read_set_conflict(before) ==> r == Err::<
        (Val, Option<LogEntry>),
        AVMError,
    >(tx_err(TxError::Conflict(id))) && rolled_back(before, after) && after.event_counter
        == before.event_counter
    &&& before.tx == Some(id) && !read_set_conflict(before) ==> committed(before, after, id, r)
}

/// Commit transaction `id`.
pub fn execute_commit<P>(id: TxId, state: &mut State<P>) -> (r: HandlerResult)
    requires
        old(state).tx == Some(id) ==> old(state).wf() && old(state).event_counter < u64::MAX,
    ensures
        commit_outcome(*old(state), *final(state), id, r),
        old(state).tx == Some(id) || old(state).wf() ==> final(state).wf(),
{
    match &state.tx {
        None => {
            return Err(AVMError::from(TxError::NoActiveTx));
        },
        Some(active) => {
            if *active != id {
                return Err(AVMError::from(TxError::NotFound(id)));
            }
        },
    }
    if let Err(e) = validate_observed(state) {
        state.clear_tx_overlay();
        return Err(e);
    }
    let ghost s0 = *state;
    state.tx_snapshot = None;
    apply_creates(state);
    apply_transfers(state);
    apply_writes(state);
    apply_states(state);
    apply_destroys(state);
    state.observed.clear();
    state.tx = None;
    state.tx_controller = None;
    let entry = log_event(state, EventType::TransactionCommitted(id));
    Ok((Val::Bool(true), Some(entry)))
}

/// What aborting `id` does: refuse when `id` is not the active
/// transaction; otherwise discard every pending write, restore the store to
/// its snapshot, and stamp one event (with no controller).
pub open spec fn abort_outcome<P>(
    before: State<P>,
    after: State<P>,
    id: TxId,
    r: HandlerResult,
) -> bool {
    &&& before.tx != Some(id) ==> refused(before, after, id, r)
    &&& before.tx == Some(id) ==> r == Ok::<(Val, Option<LogEntry>), AVMError>(
        (
            Val::Nothing,
            Some(
                LogEntry {
                    timestamp: before.event_counter,
                    event_type: EventType::TransactionAborted(id),
                    executing_controller: None,
                },
            ),
        ),
    ) && rolled_back(before, after) && after.event_counter == before.event_counter + 1
}

/// Abort transaction `id`.
pub fn execute_abort<P>(id: TxId, state: &mut State<P>) -> (r: HandlerResult)
    requires
        old(state).tx == Some(id) ==> old(state).event_counter < u64::MAX,
    ensures
        abort_outcome(*old(state), *final(state), id, r),
        old(state).wf() ==> final(state).wf(),
{
    match &state.tx {
        None => {
            return Err(AVMError::from(TxError::NoActiveTx));
        },
        Some(active) => {
            if *active != id {
                return Err(AVMError::from(TxError::NotFound(id)));
            }
        },
    }
    state.clear_tx_overlay();
    let entry = log_event(state, EventType::TransactionAborted(id));
    Ok((Val::Nothing, Some(entry)))
}

/// What a transaction instruction needs of the state: room in the counters
/// for what it stamps or draws, and, for a commit that goes ahead, every
/// pending creation filed under its own id (the creations are applied by
/// that id).
pub open spec fn tx_ready<P>(instr: TxInstruction, s: State<P>) -> bool {
    match instr {
        TxInstruction::Begin(_) => begin_ready(s),
        TxInstruction::Commit(id) => s.tx == Some(id) ==> s.wf() && s.event_counter < u64::MAX,
        TxInstruction::Abort(id) => s.tx == Some(id) ==> s.event_counter < u64::MAX,
    }
}

/// Execute a transaction instruction.
pub fn execute<P>(instr: TxInstruction, state: &mut State<P>) -> (r: HandlerResult)
    requires
        tx_ready(instr, *old(state)),
    ensures
        match instr {
            TxInstruction::Begin(c) => begin_outcome(*old(state), *final(state), c, r),
            TxInstruction::Commit(id) => commit_outcome(*old(state), *final(state), id, r),
            TxInstruction::Abort(id) => abort_outcome(*old(state), *final(state), id, r),
        },
        old(state).wf() ==> final(state).wf(),
{
    match instr {
        TxInstruction::Begin(controller) => execute_begin(controller, state),
        TxInstruction::Commit(id) => execute_commit(id, state),
        TxInstruction::Abort(id) => execute_abort(id, state),
    }
}

/// A transaction with no pending creations, transfers, state updates or
/// destroys commits to the store it started from.
pub proof fn lemma_empty_commit_keeps_store<P>(s: State<P>)
    requires
        s.creates@.is_empty(),
        s.pending_transfers@.len() == 0,
        s.pending_states@.len() == 0,
        s.destroys@.is_empty(),
    ensures
        committed_store(s) == s.store@,
{
    assert(objects_with_creates(s.store@.objects, s.creates@).remove_keys(s.destroys@)
        =~= s.store@.objects);
    assert(metadata_with_creates(s.store@.metadata, s.creates@, s.machine_id) =~= s.store@.metadata);
    assert(metadata_with_transfers(
        metadata_with_creates(s.store@.metadata, s.creates@, s.machine_id),
        s.pending_transfers@,
    ).remove_keys(s.destroys@) =~= s.store@.metadata);
    assert(states_with_creates(s.store@.states, s.creates@) =~= s.store@.states);
    assert(states_with_updates(states_with_creates(s.store@.states, s.creates@), s.pending_states@).remove_keys(
        s.destroys@,
    ) =~= s.store@.states);
}

/// After a commit, every object created in the transaction and not
/// destroyed in it exists in the store, with the behavior it was created
/// with; every object destroyed in it is gone from all three maps.
pub proof fn lemma_commit_creates_and_destroys<P>(s: State<P>, k: u64)
    ensures
        s.creates@.contains_key(k) && !s.destroys@.contains(k) ==> committed_store(s).objects.contains_key(k)
            && committed_store(s).objects[k].name == s.creates@[k].behavior_name
            && committed_store(s).metadata.contains_key(k) && committed_store(s).states.contains_key(k),
        s.destroys@.contains(k) ==> !committed_store(s).objects.contains_key(k)
            && !committed_store(s).metadata.contains_key(k) && !committed_store(s).states.contains_key(k),
{
    if s.creates@.contains_key(k) && !s.destroys@.contains(k) {
        lemma_transfers_keep_domain(
            metadata_with_creates(s.store@.metadata, s.creates@, s.machine_id),
            s.pending_transfers@,
        );
        lemma_updates_keep_created(
            states_with_creates(s.store@.states, s.creates@),
            s.pending_states@,
            k,
        );
    }
}

/// Transfers never add or remove metadata entries.
pub proof fn lemma_transfers_keep_domain(
    metadata: Map<u64, crate::types::ObjectMeta>,
    ts: Seq<(crate::types::ObjectId, ControllerId)>,
)
    ensures
        metadata_with_transfers(metadata, ts).dom() == metadata.dom(),
    decreases ts.len(),
{
    if ts.len() > 0 {
        lemma_transfers_keep_domain(metadata, ts.drop_last());
        let m = metadata_with_transfers(metadata, ts.drop_last());
        let (oid, c) = ts.last();
        if m.contains_key(oid.0) {
            assert(m.insert(oid.0, crate::types::ObjectMeta { current_controller: Some(c), ..m[oid.0] }).dom() =~= m.dom());
        }
    }
}

/// State updates never remove an entry.
pub proof fn lemma_updates_keep_created(
    states: Map<u64, Seq<crate::types::val::ValView>>,
    updates: Seq<(crate::types::ObjectId, Vec<Val>)>,
    k: u64,
)
    ensures
        states.contains_key(k) ==> states_with_updates(states, updates).contains_key(k),
    decreases updates.len(),
{
    if updates.len() > 0 {
        lemma_updates_keep_created(states, updates.drop_last(), k);
    }
}

} // verus!
