//! Object instruction handler: create, destroy, call, receive.
//!
//! A call runs the callee's program, which the caller walks; the verified
//! part of a call is split in four: [`begin_call`] finds the callee and
//! records the call in the transaction, [`enter_call_context`] switches the
//! execution frame to the callee, [`restore_call_context`] switches it back,
//! and [`finish_call`] reports the outcome.
use super::helpers::{entry_for, log_event};
use crate::error::{AVMError, ObjError};
use crate::store::fx::{fx_get, fx_insert, fxset_insert, fx_contains};
use crate::store::{ObjectBehavior, StoreView};
use crate::trace::{EventType, Trace};
use crate::types::val::ValView;
use crate::types::ids::copy_controller;
use crate::types::{ControllerId, Input, MachineId, ObjectId, ObjectMeta, Val};
use crate::vm::{CreateEntry, State};
use vstd::prelude::*;
use vstd::std_specs::convert::FromSpec;

verus! {

/// The error for an object-layer failure.
pub open spec fn obj_err(e: ObjError) -> AVMError {
    <AVMError as FromSpec<ObjError>>::from_spec(e)
}

/// Whether object `id` exists in the store or is being created by the
/// transaction.
pub open spec fn known_object<P>(s: State<P>, id: ObjectId) -> bool {
    s.store@.objects.contains_key(id.0) || s.creates@.contains_key(id.0)
}

/// `after` is `before` with a new object created from `behavior_name` under
/// `controller`: its id is the next object id; inside a transaction the
/// creation is pending, outside it is stored at once with an empty state on
/// the current machine; one event is stamped.
pub open spec fn created<P>(
    before: State<P>,
    after: State<P>,
    behavior_name: String,
    controller: Option<ControllerId>,
    r: Result<(Val, Trace), AVMError>,
) -> bool {
    let id = ObjectId(before.fresh_ids.next_object());
    &&& r matches Ok((v, trace)) && v == Val::ObjectRef(id) && trace@ == seq![
        entry_for(before, EventType::ObjectCreated { id, behavior_name }),
    ]
    &&& after.fresh_ids.next_object() == before.fresh_ids.next_object() + 1
    &&& after.fresh_ids.next_tx() == before.fresh_ids.next_tx()
    &&& before.tx is Some ==> after.creates@ == before.creates@.insert(
        id.0,
        CreateEntry { id, behavior_name, controller },
    ) && after.store == before.store
    &&& before.tx is None ==> after.store@ == (StoreView {
        objects: before.store@.objects.insert(id.0, ObjectBehavior { name: behavior_name }),
        metadata: before.store@.metadata.insert(
            id.0,
            ObjectMeta {
                object_id: id,
                machine: before.machine_id,
                creating_controller: controller,
                current_controller: controller,
            },
        ),
        states: before.store@.states.insert(id.0, Seq::empty()),
    }) && after.creates == before.creates
    &&& after == (State {
        store: after.store,
        creates: after.creates,
        fresh_ids: after.fresh_ids,
        event_counter: (before.event_counter + 1) as u64,
        ..before
    })
}

/// Create an object from a named behavior.
pub fn execute_create<P>(
    behavior_name: String,
    controller: Option<ControllerId>,
    state: &mut State<P>,
) -> (r: Result<(Val, Trace), AVMError>)
    requires
        old(state).fresh_ids.next_object() < u64::MAX,
        old(state).event_counter < u64::MAX,
    ensures
        created(*old(state), *final(state), behavior_name, controller, r),
        old(state).wf() ==> final(state).wf(),
{
    let new_id = state.fresh_ids.next_object_id();
    if state.in_transaction() {
        fx_insert(
            &mut state.creates,
            new_id.0,
            CreateEntry { id: new_id, behavior_name: behavior_name.clone(), controller },
        );
    } else {
        let meta = ObjectMeta {
            object_id: new_id,
            machine: state.machine_id.clone(),
            creating_controller: copy_controller(&controller),
            current_controller: controller,
        };
        state.store.objects.insert(new_id, ObjectBehavior { name: behavior_name.clone() });
        state.store.metadata.insert(new_id, meta);
        let empty: Vec<Val> = Vec::new();
        state.store.states.insert(new_id, empty);
        proof {
            assert(crate::types::val::vals_view(empty@) =~= Seq::<ValView>::empty());
        }
    }
    let entry = log_event(state, EventType::ObjectCreated { id: new_id, behavior_name });
    let mut trace: Trace = Vec::new();
    trace.push(entry);
    Ok((Val::ObjectRef(new_id), trace))
}

/// What destroying `id` does: fail with `NotFound`, changing nothing, when
/// the object is neither stored nor being created; otherwise mark it for
/// destruction inside a transaction, or remove it at once outside, and stamp
/// one event.
pub open spec fn destroyed<P>(
    before: State<P>,
    after: State<P>,
    id: ObjectId,
    r: Result<(Val, Trace), AVMError>,
) -> bool {
    &&& !known_object(before, id) ==> r == Err::<(Val, Trace), AVMError>(
        obj_err(ObjError::NotFound(id)),
    ) && after == before
    &&& known_object(before, id) ==> {
        &&& r matches Ok((v, trace)) && v == Val::Bool(true) && trace@ == seq![
            entry_for(before, EventType::ObjectDestroyed(id)),
        ]
        &&& before.tx is Some ==> after.destroys@ == before.destroys@.insert(id.0) && after.store
            == before.store
        &&& before.tx is None ==> after.store@ == (StoreView {
            objects: before.store@.objects.remove(id.0),
            metadata: before.store@.metadata.remove(id.0),
            states: before.store@.states.remove(id.0),
        }) && after.destroys == before.destroys
        &&& after == (State {
            store: after.store,
            destroys: after.destroys,
            event_counter: (before.event_counter + 1) as u64,
            ..before
        })
    }
}

/// Mark an object for destruction.
pub fn execute_destroy<P>(id: ObjectId, state: &mut State<P>) -> (r: Result<(Val, Trace), AVMError>)
    requires
        known_object(*old(state), id) ==> old(state).event_counter < u64::MAX,
    ensures
        destroyed(*old(state), *final(state), id, r),
{
    let exists = state.store.objects.contains(&id) || fx_contains(&state.creates, id.0);
    if !exists {
        return Err(AVMError::from(ObjError::NotFound(id)));
    }
    if state.in_transaction() {
        fxset_insert(&mut state.destroys, id.0);
    } else {
        state.store.remove(&id);
    }
    let entry = log_event(state, EventType::ObjectDestroyed(id));
    let mut trace: Trace = Vec::new();
    trace.push(entry);
    Ok((Val::Bool(true), trace))
}

/// What receiving does: this single-threaded interpreter has no mailbox,
/// so the message is always `Nothing`; one event is stamped.
pub open spec fn received<P>(before: State<P>, after: State<P>, r: Result<(Val, Trace), AVMError>) -> bool {
    &&& r matches Ok((v, trace)) && v == Val::Nothing && trace@ == seq![
        entry_for(before, EventType::MessageReceived { id: before.self_id, input: Val::Nothing }),
    ]
    &&& after == (State { event_counter: (before.event_counter + 1) as u64, ..before })
}

/// Receive the next message.
pub fn execute_receive<P>(state: &mut State<P>) -> (r: Result<(Val, Trace), AVMError>)
    requires
        old(state).event_counter < u64::MAX,
    ensures
        received(*old(state), *final(state), r),
{
    let id = state.self_id;
    let entry = log_event(state, EventType::MessageReceived { id, input: Val::Nothing });
    let mut trace: Trace = Vec::new();
    trace.push(entry);
    Ok((Val::Nothing, trace))
}

/// What the caller needs to run a callee: the name of its behavior, the
/// machine that holds its data, and whether that machine is another than the
/// current one (then the call goes through the transport).
#[derive(Debug)]
pub struct CallPlan {
    pub behavior_name: String,
    pub target_machine: MachineId,
    pub is_remote: bool,
}

/// The behavior name of object `id`: its stored behavior, or else its
/// pending creation's.
pub open spec fn behavior_of<P>(s: State<P>, id: ObjectId) -> String {
    if s.store@.objects.contains_key(id.0) {
        s.store@.objects[id.0].name
    } else {
        s.creates@[id.0].behavior_name
    }
}

/// The machine of object `id`: the one in its metadata, or else the current
/// machine.
pub open spec fn machine_of<P>(s: State<P>, id: ObjectId) -> MachineId {
    if s.store@.metadata.contains_key(id.0) {
        s.store@.metadata[id.0].machine
    } else {
        s.machine_id
    }
}

/// What beginning a call of `target` with `input` does: fail with
/// `NotFound`, changing nothing, when the target is unknown; otherwise plan
/// the call and, inside a transaction, log it and add the target to the read
/// set.
pub open spec fn call_begun<P>(
    before: State<P>,
    after: State<P>,
    target: ObjectId,
    input: Val,
    r: Result<CallPlan, AVMError>,
) -> bool {
    &&& !known_object(before, target) ==> r == Err::<CallPlan, AVMError>(
        obj_err(ObjError::NotFound(target)),
    ) && after == before
    &&& known_object(before, target) ==> {
        &&& r matches Ok(plan) && plan.behavior_name == behavior_of(before, target)
            && plan.target_machine == machine_of(before, target) && plan.is_remote == (machine_of(
            before,
            target,
        ).0@ != before.machine_id.0@)
        &&& before.tx is None ==> after == before
        &&& before.tx is Some ==> {
            &&& after.tx_log@.len() == before.tx_log@.len() + 1
            &&& after.tx_log@.drop_last() == before.tx_log@
            &&& after.tx_log@.last().0 == target
            &&& after.tx_log@.last().1@ == input@
            &&& after.observed@ == before.observed@.insert(target.0)
            &&& after == (State { tx_log: after.tx_log, observed: after.observed, ..before })
        }
    }
}

/// Find the callee of a call and record the call in the transaction.
pub fn begin_call<P>(target: ObjectId, input: &Val, state: &mut State<P>) -> (r: Result<
    CallPlan,
    AVMError,
>)
    ensures
        call_begun(*old(state), *final(state), target, *input, r),
{
    let behavior_name = match state.store.objects.get(&target) {
        Some(b) => b.name.clone(),
        None => match fx_get(&state.creates, target.0) {
            Some(c) => c.behavior_name.clone(),
            None => {
                return Err(AVMError::from(ObjError::NotFound(target)));
            },
        },
    };
    let target_machine = match state.store.metadata.get(&target) {
        Some(m) => m.machine.clone(),
        None => state.machine_id.clone(),
    };
    let is_remote = !(target_machine.0 == state.machine_id.0);
    if state.in_transaction() {
        state.tx_log.push((target, input.clone()));
        state.observe(target);
        proof {
            assert(state.tx_log@.drop_last() =~= old(state).tx_log@);
        }
    }
    Ok(CallPlan { behavior_name, target_machine, is_remote })
}

/// The caller's execution frame, saved while a callee runs.
#[derive(Debug)]
pub struct CallFrame {
    pub self_id: ObjectId,
    pub input: Input,
    pub sender: Option<ObjectId>,
    pub machine: MachineId,
}

/// Switch the execution frame to a callee: `target_id` runs with `input`,
/// sent by `sender`, on `machine`. Returns the caller's frame.
pub fn enter_call_context<P>(
    state: &mut State<P>,
    target_id: ObjectId,
    input: Val,
    sender: ObjectId,
    machine: MachineId,
) -> (saved: CallFrame)
    ensures
        saved == (CallFrame {
            self_id: old(state).self_id,
            input: old(state).input,
            sender: old(state).sender,
            machine: old(state).machine_id,
        }),
        *final(state) == (State {
            self_id: target_id,
            input,
            sender: Some(sender),
            machine_id: machine,
            ..*old(state)
        }),
{
    let mut input = input;
    let mut machine = machine;
    let mut sender = Some(sender);
    let saved_self = state.self_id;
    state.self_id = target_id;
    std::mem::swap(&mut state.input, &mut input);
    std::mem::swap(&mut state.sender, &mut sender);
    std::mem::swap(&mut state.machine_id, &mut machine);
    CallFrame { self_id: saved_self, input, sender, machine }
}

/// Switch the execution frame back to the caller's saved frame.
pub fn restore_call_context<P>(state: &mut State<P>, saved: CallFrame)
    ensures
        *final(state) == (State {
            self_id: saved.self_id,
            input: saved.input,
            sender: saved.sender,
            machine_id: saved.machine,
            ..*old(state)
        }),
{
    state.self_id = saved.self_id;
    state.input = saved.input;
    state.sender = saved.sender;
    state.machine_id = saved.machine;
}

/// Entering a callee's frame and restoring the saved frame afterwards gives
/// the caller its frame back, whatever the callee did to the rest of the
/// state in between.
pub proof fn lemma_call_context_round_trip<P>(
    s0: State<P>,
    s1: State<P>,
    s2: State<P>,
    s3: State<P>,
    saved: CallFrame,
    target_id: ObjectId,
    input: Val,
    sender: ObjectId,
    machine: MachineId,
)
    requires
        saved == (CallFrame {
            self_id: s0.self_id,
            input: s0.input,
            sender: s0.sender,
            machine: s0.machine_id,
        }),
        s1 == (State { self_id: target_id, input, sender: Some(sender), machine_id: machine, ..s0 }),
        s3 == (State {
            self_id: saved.self_id,
            input: saved.input,
            sender: saved.sender,
            machine_id: saved.machine,
            ..s2
        }),
    ensures
        s3.self_id == s0.self_id,
        s3.input == s0.input,
        s3.sender == s0.sender,
        s3.machine_id == s0.machine_id,
        s1.self_id == target_id && s1.sender == Some(sender),
{
}

/// Report the outcome of a call of `target` with `input`. A callee that
/// returned `v` with trace `t` gives `Just(v)` and `t` followed by one
/// `ObjectCalled` event carrying `v`; a callee that failed gives `Nothing`
/// and one `ObjectCalled` event without output. The callee's failure is not
/// passed on.
pub fn finish_call<P>(
    state: &mut State<P>,
    target: ObjectId,
    input: Val,
    outcome: Option<(Val, Trace)>,
) -> (r: (Val, Trace))
    requires
        old(state).event_counter < u64::MAX,
    ensures
        *final(state) == (State { event_counter: (old(state).event_counter + 1) as u64, ..*old(state) }),
        match outcome {
            Some((v, t)) => {
                &&& r.0@ == ValView::Just(Box::new(v@))
                &&& r.1@.len() == t@.len() + 1
                &&& r.1@.drop_last() == t@
                &&& r.1@.last().timestamp == old(state).event_counter
                &&& r.1@.last().executing_controller == old(state).tx_controller
                &&& r.1@.last().event_type matches EventType::ObjectCalled {
                    id,
                    input: i,
                    output: Some(o),
                } && id == target && i == input && o@ == v@
            },
            None => r.0 == Val::Nothing && r.1@ == seq![
                entry_for(
                    *old(state),
                    EventType::ObjectCalled { id: target, input, output: None },
                ),
            ],
        },
{
    match outcome {
        Some((value, callee_trace)) => {
            let mut trace = callee_trace;
            let output = value.clone();
            let entry = log_event(
                state,
                EventType::ObjectCalled { id: target, input, output: Some(output) },
            );
            let ghost t0 = trace@;
            trace.push(entry);
            proof {
                assert(trace@.drop_last() =~= t0);
            }
            (Val::just(value), trace)
        },
        None => {
            let entry = log_event(
                state,
                EventType::ObjectCalled { id: target, input, output: None },
            );
            let mut trace: Trace = Vec::new();
            trace.push(entry);
            (Val::Nothing, trace)
        },
    }
}

} // verus!
