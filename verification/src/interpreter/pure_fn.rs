//! Pure function instruction handler.
//!
//! A `Call` evaluates a function of the state's table, which the caller does
//! (see [`super::dispatch`]); [`finish_pure_call`] turns the outcome into the
//! instruction's result.
use super::dispatch::HandlerResult;
use super::helpers::{entry_for, log_event};
use crate::error::{AVMError, PureError};
use crate::instruction::PureInstruction;
use crate::trace::{EventType, LogEntry};
use crate::types::Val;
use crate::vm::State;
use vstd::prelude::*;
use vstd::std_specs::convert::FromSpec;

verus! {

/// The error for a pure-function failure.
pub open spec fn pure_err(e: PureError) -> AVMError {
    <AVMError as FromSpec<PureError>>::from_spec(e)
}

/// The result of calling pure function `name`, given what the table
/// answered: `None` when it has no such function (then `NotFound(name)`);
/// `Some(r)` when it has, `r` being the function's result (`Nothing` when
/// the function gave none).
pub fn finish_pure_call(name: String, outcome: Option<Option<Val>>) -> (r: HandlerResult)
    ensures
        r == (match outcome {
            Some(Some(v)) => Ok::<(Val, Option<LogEntry>), AVMError>((v, None)),
            Some(None) => Ok::<(Val, Option<LogEntry>), AVMError>((Val::Nothing, None)),
            None => Err::<(Val, Option<LogEntry>), AVMError>(pure_err(PureError::NotFound(name))),
        }),
{
    match outcome {
        Some(result) => Ok((
            match result {
                Some(v) => v,
                None => Val::Nothing,
            },
            None,
        )),
        None => Err(AVMError::from(PureError::NotFound(name))),
    }
}

/// What `Register` and `Update` do. Functions cannot travel inside
/// instructions, so `Register` always fails with `AlreadyRegistered`
/// (registration goes through the table itself); `Update` stamps one event
/// and gives `true`. `Call` is not handled here.
pub open spec fn pure_done<P>(
    instr: PureInstruction,
    before: State<P>,
    after: State<P>,
    r: HandlerResult,
) -> bool {
    match instr {
        PureInstruction::Register { name, .. } => after == before && r == Err::<
            (Val, Option<LogEntry>),
            AVMError,
        >(pure_err(PureError::AlreadyRegistered(name))),
        PureInstruction::Update { name, .. } => after == (State {
            event_counter: (before.event_counter + 1) as u64,
            ..before
        }) && r == Ok::<(Val, Option<LogEntry>), AVMError>(
            (Val::Bool(true), Some(entry_for(before, EventType::FunctionUpdated(name)))),
        ),
        PureInstruction::Call { .. } => false,
    }
}

/// Execute a `Register` or `Update` instruction.
pub fn execute<P>(instr: PureInstruction, state: &mut State<P>) -> (r: HandlerResult)
    requires
        !(instr is Call),
        instr is Update ==> old(state).event_counter < u64::MAX,
    ensures
        pure_done(instr, *old(state), *final(state), r),
{
    match instr {
        PureInstruction::Register { name, .. } => Err(AVMError::from(PureError::AlreadyRegistered(name))),
        PureInstruction::Update { name, .. } => {
            let entry = log_event(state, EventType::FunctionUpdated(name));
            Ok((Val::Bool(true), Some(entry)))
        },
        PureInstruction::Call { .. } => Ok((Val::Nothing, None)),
    }
}

} // verus!
