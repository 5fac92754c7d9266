//! Machine instruction handler: physical location management.
use super::dispatch::HandlerResult;
use super::helpers::{entry_for, log_event};
use crate::error::{AVMError, MachineError};
use crate::instruction::MachineInstruction;
use crate::store::StoreView;
use crate::trace::{EventType, LogEntry};
use crate::types::{ObjectMeta, Val};
use crate::vm::State;
use vstd::prelude::*;
use vstd::std_specs::convert::FromSpec;

verus! {

/// The error for a machine-layer failure.
pub open spec fn machine_err(e: MachineError) -> AVMError {
    <AVMError as FromSpec<MachineError>>::from_spec(e)
}

/// What a machine instruction does.
///
/// - `GetMachine(id)`: `Just(Str(machine))` of the object's metadata, or
///   `Nothing`; no change.
/// - `Teleport(m)`: fails with `TeleportDuringTx` inside a transaction,
///   changing nothing; otherwise execution moves to `m` and one event is
///   stamped.
/// - `MoveObject { object, target }`: the object's metadata moves to
///   `target` and one event is stamped, giving `true`; `false` and no change
///   when it has no metadata.
/// - `Fetch(id)`: one event is stamped, giving `true`.
pub open spec fn machine_done<P>(
    instr: MachineInstruction,
    before: State<P>,
    after: State<P>,
    r: HandlerResult,
) -> bool {
    let counted = State { event_counter: (before.event_counter + 1) as u64, ..before };
    match instr {
        MachineInstruction::GetMachine(id) => after == before && r == Ok::<
            (Val, Option<LogEntry>),
            AVMError,
        >(
            (
                if before.store@.metadata.contains_key(id.0) {
                    Val::Just(Box::new(Val::Str(before.store@.metadata[id.0].machine.0)))
                } else {
                    Val::Nothing
                },
                None,
            ),
        ),
        MachineInstruction::Teleport(target) => if before.tx is Some {
            after == before && r == Err::<(Val, Option<LogEntry>), AVMError>(
                machine_err(MachineError::TeleportDuringTx),
            )
        } else {
            &&& r == Ok::<(Val, Option<LogEntry>), AVMError>(
                (
                    Val::Bool(true),
                    Some(
                        entry_for(
                            before,
                            EventType::ExecutionMoved { from: before.machine_id, to: target },
                        ),
                    ),
                ),
            )
            &&& after == (State { machine_id: target, ..counted })
        },
        MachineInstruction::MoveObject { object, target } => if before.store@.metadata.contains_key(
            object.0,
        ) {
            let meta = before.store@.metadata[object.0];
            &&& r == Ok::<(Val, Option<LogEntry>), AVMError>(
                (
                    Val::Bool(true),
                    Some(
                        entry_for(
                            before,
                            EventType::ObjectMoved { id: object, from: meta.machine, to: target },
                        ),
                    ),
                ),
            )
            &&& after.store@ == (StoreView {
                metadata: before.store@.metadata.insert(
                    object.0,
                    ObjectMeta { machine: target, ..meta },
                ),
                ..before.store@
            })
            &&& after == (State { store: after.store, ..counted })
        } else {
            after == before && r == Ok::<(Val, Option<LogEntry>), AVMError>((Val::Bool(false), None))
        },
        MachineInstruction::Fetch(id) => {
            &&& r == Ok::<(Val, Option<LogEntry>), AVMError>(
                (
                    Val::Bool(true),
                    Some(
                        entry_for(before, EventType::ObjectFetched { id, machine: before.machine_id }),
                    ),
                ),
            )
            &&& after == counted
        },
    }
}

/// Whether a machine instruction can stamp its event: the event counter has
/// room when the instruction stamps one.
pub open spec fn machine_ready<P>(instr: MachineInstruction, s: State<P>) -> bool {
    match instr {
        MachineInstruction::GetMachine(_) => true,
        MachineInstruction::Teleport(_) => s.tx is None ==> s.event_counter < u64::MAX,
        MachineInstruction::MoveObject { object, .. } => s.store@.metadata.contains_key(object.0)
            ==> s.event_counter < u64::MAX,
        MachineInstruction::Fetch(_) => s.event_counter < u64::MAX,
    }
}

/// Execute a machine instruction.
pub fn execute<P>(instr: MachineInstruction, state: &mut State<P>) -> (r: HandlerResult)
    requires
        machine_ready(instr, *old(state)),
    ensures
        machine_done(instr, *old(state), *final(state), r),
{
    match instr {
        MachineInstruction::GetMachine(id) => {
            let val = match state.store.metadata.get(&id) {
                Some(m) => Val::just(Val::Str(m.machine.0.clone())),
                None => Val::Nothing,
            };
            Ok((val, None))
        },
        MachineInstruction::Teleport(target) => {
            if state.in_transaction() {
                return Err(AVMError::from(MachineError::TeleportDuringTx));
            }
            let from = state.machine_id.clone();
            state.machine_id = target.clone();
            let entry = log_event(state, EventType::ExecutionMoved { from, to: target });
            Ok((Val::Bool(true), Some(entry)))
        },
        MachineInstruction::MoveObject { object, target } => {
            match state.store.metadata.get_mut(&object) {
                Some(meta) => {
                    let from = meta.machine.clone();
                    meta.machine = target.clone();
                    let entry = log_event(state, EventType::ObjectMoved { id: object, from, to: target });
                    Ok((Val::Bool(true), Some(entry)))
                },
                None => Ok((Val::Bool(false), None)),
            }
        },
        MachineInstruction::Fetch(id) => {
            let machine = state.machine_id.clone();
            let entry = log_event(state, EventType::ObjectFetched { id, machine });
            Ok((Val::Bool(true), Some(entry)))
        },
    }
}

} // verus!
