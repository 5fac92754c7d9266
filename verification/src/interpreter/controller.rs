//! Controller instruction handler: logical ownership management.
use super::dispatch::HandlerResult;
use super::helpers::{entry_for, log_event};
use super::reflect::{controller_val, controller_value};
use crate::error::{AVMError, ControllerError};
use crate::instruction::ControllerInstruction;
use crate::store::StoreView;
use crate::trace::{EventType, LogEntry};
use crate::types::ids::copy_controller;
use crate::types::{ControllerId, ObjectMeta, Val};
use crate::vm::State;
use vstd::prelude::*;
use vstd::std_specs::convert::FromSpec;

verus! {

/// The error for a controller-layer failure.
pub open spec fn controller_err(e: ControllerError) -> AVMError {
    <AVMError as FromSpec<ControllerError>>::from_spec(e)
}

/// The current controller recorded in the metadata of object `k`, if any.
pub open spec fn current_controller_of<P>(s: State<P>, k: u64) -> Option<ControllerId> {
    if s.store@.metadata.contains_key(k) {
        s.store@.metadata[k].current_controller
    } else {
        None
    }
}

/// What a controller instruction does.
///
/// - `GetCurrentController`: the transaction's controller (as `Just(Str)`),
///   or `Nothing`; no change.
/// - `GetController(id)`: the object's current controller, or `Nothing`; no
///   change.
/// - `Transfer { object, new_controller }`: fails with `NotAvailable` when
///   the object has no behavior stored, changing nothing; inside a
///   transaction the transfer is queued; outside, an object with metadata
///   gets the new controller and one event is stamped (naming the old
///   controller, or `none`); the result is `true`.
/// - `Freeze(id)`: `Nothing` and no change when the object has no current
///   controller; otherwise one event is stamped and the result is
///   `Just(true)`.
pub open spec fn controlled<P>(
    instr: ControllerInstruction,
    before: State<P>,
    after: State<P>,
    r: HandlerResult,
) -> bool {
    let counted = State { event_counter: (before.event_counter + 1) as u64, ..before };
    match instr {
        ControllerInstruction::GetCurrentController => after == before && r == Ok::<
            (Val, Option<LogEntry>),
            AVMError,
        >((controller_val(before.tx_controller), None)),
        ControllerInstruction::GetController(id) => after == before && r == Ok::<
            (Val, Option<LogEntry>),
            AVMError,
        >((controller_val(current_controller_of(before, id.0)), None)),
        ControllerInstruction::Transfer { object, new_controller } => if !before.store@.objects.contains_key(
            object.0,
        ) {
            after == before && r == Err::<(Val, Option<LogEntry>), AVMError>(
                controller_err(ControllerError::NotAvailable(object)),
            )
        } else if before.tx is Some {
            &&& r == Ok::<(Val, Option<LogEntry>), AVMError>((Val::Bool(true), None))
            &&& after.pending_transfers@ == before.pending_transfers@.push((object, new_controller))
            &&& after == (State { pending_transfers: after.pending_transfers, ..before })
        } else if before.store@.metadata.contains_key(object.0) {
            let meta = before.store@.metadata[object.0];
            &&& r matches Ok((v, Some(e))) && v == Val::Bool(true) && e.timestamp
                == before.event_counter && e.executing_controller == before.tx_controller && match e.event_type {
                EventType::ObjectTransferred { id, from, to } => id == object && to == new_controller
                    && match meta.current_controller {
                    Some(c) => from == c,
                    None => from.0@ == "none"@,
                },
                _ => false,
            }
            &&& after.store@ == (StoreView {
                metadata: before.store@.metadata.insert(
                    object.0,
                    ObjectMeta { current_controller: Some(new_controller), ..meta },
                ),
                ..before.store@
            })
            &&& after == (State { store: after.store, ..counted })
        } else {
            after == before && r == Ok::<(Val, Option<LogEntry>), AVMError>((Val::Bool(true), None))
        },
        ControllerInstruction::Freeze(id) => match current_controller_of(before, id.0) {
            None => after == before && r == Ok::<(Val, Option<LogEntry>), AVMError>(
                (Val::Nothing, None),
            ),
            Some(c) => after == counted && r == Ok::<(Val, Option<LogEntry>), AVMError>(
                (
                    Val::Just(Box::new(Val::Bool(true))),
                    Some(entry_for(before, EventType::ObjectFrozen { id, controller: c })),
                ),
            ),
        },
    }
}

/// Whether a controller instruction can stamp its event.
pub open spec fn controller_ready<P>(instr: ControllerInstruction, s: State<P>) -> bool {
    match instr {
        ControllerInstruction::Transfer { object, .. } => s.store@.objects.contains_key(object.0)
            && s.tx is None && s.store@.metadata.contains_key(object.0) ==> s.event_counter
            < u64::MAX,
        ControllerInstruction::Freeze(id) => current_controller_of(s, id.0) is Some
            ==> s.event_counter < u64::MAX,
        _ => true,
    }
}

/// Execute a controller instruction.
pub fn execute<P>(instr: ControllerInstruction, state: &mut State<P>) -> (r: HandlerResult)
    requires
        controller_ready(instr, *old(state)),
    ensures
        controlled(instr, *old(state), *final(state), r),
{
    match instr {
        ControllerInstruction::GetCurrentController => {
            Ok((controller_value(&state.tx_controller), None))
        },
        ControllerInstruction::GetController(id) => {
            let val = match state.store.metadata.get(&id) {
                Some(m) => controller_value(&m.current_controller),
                None => Val::Nothing,
            };
            Ok((val, None))
        },
        ControllerInstruction::Transfer { object, new_controller } => {
            if !state.store.objects.contains(&object) {
                return Err(AVMError::from(ControllerError::NotAvailable(object)));
            }
            if state.in_transaction() {
                state.pending_transfers.push((object, new_controller));
                return Ok((Val::Bool(true), None));
            }
            match state.store.metadata.get_mut(&object) {
                Some(meta) => {
                    let from = match &meta.current_controller {
                        Some(c) => c.clone(),
                        None => ControllerId(String::from_str("none")),
                    };
                    meta.current_controller = Some(new_controller.clone());
                    let entry = log_event(
                        state,
                        EventType::ObjectTransferred { id: object, from, to: new_controller },
                    );
                    Ok((Val::Bool(true), Some(entry)))
                },
                None => Ok((Val::Bool(true), None)),
            }
        },
        ControllerInstruction::Freeze(id) => {
            let controller = match state.store.metadata.get(&id) {
                Some(m) => copy_controller(&m.current_controller),
                None => None,
            };
            match controller {
                None => Ok((Val::Nothing, None)),
                Some(ctrl) => {
                    let entry = log_event(state, EventType::ObjectFrozen { id, controller: ctrl });
                    Ok((Val::just(Val::Bool(true)), Some(entry)))
                },
            }
        },
    }
}

} // verus!
