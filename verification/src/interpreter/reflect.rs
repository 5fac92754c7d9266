//! Reflection instruction handler.
use super::dispatch::HandlerResult;
use crate::error::{AVMError, ReflectError};
use crate::instruction::ReflectInstruction;
use crate::trace::LogEntry;
use crate::types::{ControllerId, ObjectMeta, Val};
use crate::vm::State;
use vstd::prelude::*;
use vstd::std_specs::convert::FromSpec;

verus! {

/// The error for a reflection failure.
pub open spec fn reflect_err(e: ReflectError) -> AVMError {
    <AVMError as FromSpec<ReflectError>>::from_spec(e)
}

/// `Just(Str(name))` for a controller, `Nothing` for none.
pub open spec fn controller_val(c: Option<ControllerId>) -> Val {
    match c {
        Some(c) => Val::Just(Box::new(Val::Str(c.0))),
        None => Val::Nothing,
    }
}

/// The value that encodes object metadata: the object, its machine, and its
/// creating and current controllers.
pub open spec fn meta_items(meta: ObjectMeta) -> Seq<Val> {
    seq![
        Val::ObjectRef(meta.object_id),
        Val::Str(meta.machine.0),
        controller_val(meta.creating_controller),
        controller_val(meta.current_controller),
    ]
}

/// The value for an optional controller.
pub fn controller_value(c: &Option<ControllerId>) -> (v: Val)
    ensures
        v == controller_val(*c),
{
    match c {
        Some(c) => Val::just(Val::Str(c.0.clone())),
        None => Val::Nothing,
    }
}

/// What a reflection instruction does: `Reflect(id)` gives `Just` of the
/// encoded metadata of `id`, or fails with `MetadataNotFound`; the scry
/// queries fail with `ScryPredicateFailed`. The state does not change.
pub open spec fn reflected<P>(
    instr: ReflectInstruction,
    before: State<P>,
    after: State<P>,
    r: HandlerResult,
) -> bool {
    &&& after == before
    &&& match instr {
        ReflectInstruction::Reflect(id) => if before.store@.metadata.contains_key(id.0) {
            r matches Ok((Val::Just(inner), e)) && e is None && match *inner {
                Val::List(items) => items@ == meta_items(before.store@.metadata[id.0]),
                _ => false,
            }
        } else {
            r == Err::<(Val, Option<LogEntry>), AVMError>(
                reflect_err(ReflectError::MetadataNotFound(id)),
            )
        },
        _ => r == Err::<(Val, Option<LogEntry>), AVMError>(
            reflect_err(ReflectError::ScryPredicateFailed),
        ),
    }
}

/// Execute a reflection instruction.
pub fn execute<P>(instr: ReflectInstruction, state: &mut State<P>) -> (r: HandlerResult)
    ensures
        reflected(instr, *old(state), *final(state), r),
{
    match instr {
        ReflectInstruction::Reflect(id) => {
            let meta = match state.store.metadata.get(&id) {
                Some(m) => m,
                None => {
                    return Err(AVMError::from(ReflectError::MetadataNotFound(id)));
                },
            };
            let mut items: Vec<Val> = Vec::new();
            items.push(Val::ObjectRef(meta.object_id));
            items.push(Val::Str(meta.machine.0.clone()));
            items.push(controller_value(&meta.creating_controller));
            items.push(controller_value(&meta.current_controller));
            proof {
                assert(items@ =~= meta_items(*meta));
            }
            Ok((Val::just(Val::list(items)), None))
        },
        ReflectInstruction::ScryMeta { .. } | ReflectInstruction::ScryDeep { .. } => {
            Err(AVMError::from(ReflectError::ScryPredicateFailed))
        },
    }
}

} // verus!
