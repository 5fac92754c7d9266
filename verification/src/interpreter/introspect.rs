//! Introspection instruction handler.
use super::dispatch::HandlerResult;
use super::helpers::{entry_for, log_event};
use crate::error::AVMError;
use crate::instruction::IntrospectInstruction;
use crate::store::StoreView;
use crate::trace::{EventType, LogEntry};
use crate::types::val::{copy_vals, vals_view, ValView};
use crate::types::{ObjectId, Val};
use crate::vm::State;
use vstd::prelude::*;

verus! {

/// The model of the state of the running object: its stored state, or the
/// empty list when it has none.
pub open spec fn own_state<P>(s: State<P>) -> Seq<ValView> {
    if s.store@.states.contains_key(s.self_id.0) {
        s.store@.states[s.self_id.0]
    } else {
        Seq::empty()
    }
}

/// `Just(ObjectRef(o))` for a sender `o`, `Nothing` for none.
pub open spec fn sender_val(sender: Option<ObjectId>) -> Val {
    match sender {
        Some(o) => Val::Just(Box::new(Val::ObjectRef(o))),
        None => Val::Nothing,
    }
}

/// What an introspection instruction does. Only `SetState` changes the
/// state: inside a transaction it queues the new state, outside it stores it
/// at once; either way one event is stamped.
pub open spec fn introspected<P>(
    instr: IntrospectInstruction,
    before: State<P>,
    after: State<P>,
    r: HandlerResult,
) -> bool {
    match instr {
        IntrospectInstruction::SetState(new_state) => {
            &&& r == Ok::<(Val, Option<LogEntry>), AVMError>(
                (Val::Nothing, Some(entry_for(before, EventType::StateUpdated(before.self_id)))),
            )
            &&& before.tx is Some ==> after.pending_states@ == before.pending_states@.push(
                (before.self_id, new_state),
            ) && after.store == before.store
            &&& before.tx is None ==> after.store@ == (StoreView {
                states: before.store@.states.insert(before.self_id.0, vals_view(new_state@)),
                ..before.store@
            }) && after.pending_states == before.pending_states
            &&& after == (State {
                store: after.store,
                pending_states: after.pending_states,
                event_counter: (before.event_counter + 1) as u64,
                ..before
            })
        },
        _ => {
            &&& after == before
            &&& r matches Ok((v, e)) && e is None && match instr {
                IntrospectInstruction::GetSelf => v == Val::ObjectRef(before.self_id),
                IntrospectInstruction::GetInput => v@ == before.input@,
                IntrospectInstruction::GetCurrentMachine => v == Val::Str(before.machine_id.0),
                IntrospectInstruction::GetState => v@ == ValView::List(own_state(before)),
                _ => v == sender_val(before.sender),
            }
        },
    }
}

/// Execute an introspection instruction.
pub fn execute<P>(instr: IntrospectInstruction, state: &mut State<P>) -> (r: HandlerResult)
    requires
        instr is SetState ==> old(state).event_counter < u64::MAX,
    ensures
        introspected(instr, *old(state), *final(state), r),
{
    match instr {
        IntrospectInstruction::GetSelf => Ok((Val::ObjectRef(state.self_id), None)),
        IntrospectInstruction::GetInput => Ok((state.input.clone(), None)),
        IntrospectInstruction::GetCurrentMachine => Ok((Val::Str(state.machine_id.0.clone()), None)),
        IntrospectInstruction::GetState => {
            let obj_state = match state.store.states.get(&state.self_id) {
                Some(v) => copy_vals(v),
                None => Vec::new(),
            };
            proof {
                if !state.store@.states.contains_key(state.self_id.0) {
                    assert(vals_view(obj_state@) =~= Seq::<ValView>::empty());
                }
            }
            Ok((Val::List(obj_state), None))
        },
        IntrospectInstruction::SetState(new_state) => {
            let self_id = state.self_id;
            if state.in_transaction() {
                state.pending_states.push((self_id, new_state));
            } else {
                state.store.states.insert(self_id, new_state);
            }
            let entry = log_event(state, EventType::StateUpdated(self_id));
            Ok((Val::Nothing, Some(entry)))
        },
        IntrospectInstruction::GetSender => {
            let val = match state.sender {
                Some(oid) => Val::just(Val::ObjectRef(oid)),
                None => Val::Nothing,
            };
            Ok((val, None))
        },
    }
}

} // verus!
