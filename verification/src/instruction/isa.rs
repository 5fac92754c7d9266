//! The complete instruction set and its convenience constructors.
use super::{
    ControllerInstruction, FdInstruction, IntrospectInstruction, MachineInstruction,
    NondetInstruction, ObjInstruction, PureInstruction, ReflectInstruction, ReifyInstruction,
    TxInstruction,
};
use crate::types::{ControllerId, Input, ObjectId, TxId, Val};
use vstd::prelude::*;

verus! {

/// The complete AVM instruction set, unifying all layers.
#[derive(Debug)]
pub enum Instruction {
    Obj(ObjInstruction),
    Introspect(IntrospectInstruction),
    Reflect(ReflectInstruction),
    Reify(ReifyInstruction),
    Tx(TxInstruction),
    Pure(PureInstruction),
    Machine(MachineInstruction),
    Controller(ControllerInstruction),
    Fd(FdInstruction),
    Nondet(NondetInstruction),
}

/// Create an object by behavior name, with an optional controller.
pub fn create_obj(name: &str, controller: Option<ControllerId>) -> (i: Instruction)
    ensures
        i matches Instruction::Obj(ObjInstruction::Create { behavior_name, controller: c })
            && behavior_name@ == name@ && c == controller,
{
    Instruction::Obj(ObjInstruction::Create { behavior_name: name.to_owned(), controller })
}

/// Mark an object for destruction.
pub fn destroy_obj(id: ObjectId) -> (i: Instruction)
    ensures
        i == Instruction::Obj(ObjInstruction::Destroy(id)),
{
    Instruction::Obj(ObjInstruction::Destroy(id))
}

/// Synchronous message-passing call to an object.
pub fn call(target: ObjectId, input: Input) -> (i: Instruction)
    ensures
        i == Instruction::Obj(ObjInstruction::Call { target, input }),
{
    Instruction::Obj(ObjInstruction::Call { target, input })
}

/// Receive the next message.
pub fn receive() -> (i: Instruction)
    ensures
        i == Instruction::Obj(ObjInstruction::Receive),
{
    Instruction::Obj(ObjInstruction::Receive)
}

/// Query the current object's ID.
pub fn get_self() -> (i: Instruction)
    ensures
        i == Instruction::Introspect(IntrospectInstruction::GetSelf),
{
    Instruction::Introspect(IntrospectInstruction::GetSelf)
}

/// Query the current input message.
pub fn get_input() -> (i: Instruction)
    ensures
        i == Instruction::Introspect(IntrospectInstruction::GetInput),
{
    Instruction::Introspect(IntrospectInstruction::GetInput)
}

/// Query the current physical machine.
pub fn get_current_machine() -> (i: Instruction)
    ensures
        i == Instruction::Introspect(IntrospectInstruction::GetCurrentMachine),
{
    Instruction::Introspect(IntrospectInstruction::GetCurrentMachine)
}

/// Read the object's internal state.
pub fn get_state() -> (i: Instruction)
    ensures
        i == Instruction::Introspect(IntrospectInstruction::GetState),
{
    Instruction::Introspect(IntrospectInstruction::GetState)
}

/// Replace the object's internal state.
pub fn set_state(new_state: Vec<Val>) -> (i: Instruction)
    ensures
        i == Instruction::Introspect(IntrospectInstruction::SetState(new_state)),
{
    Instruction::Introspect(IntrospectInstruction::SetState(new_state))
}

/// Query the sender of the current call.
pub fn get_sender() -> (i: Instruction)
    ensures
        i == Instruction::Introspect(IntrospectInstruction::GetSender),
{
    Instruction::Introspect(IntrospectInstruction::GetSender)
}

/// Begin a new transaction with an optional controller.
pub fn begin_tx(controller: Option<ControllerId>) -> (i: Instruction)
    ensures
        i == Instruction::Tx(TxInstruction::Begin(controller)),
{
    Instruction::Tx(TxInstruction::Begin(controller))
}

/// Commit a transaction.
pub fn commit_tx(id: TxId) -> (i: Instruction)
    ensures
        i == Instruction::Tx(TxInstruction::Commit(id)),
{
    Instruction::Tx(TxInstruction::Commit(id))
}

/// Abort a transaction (rollback).
pub fn abort_tx(id: TxId) -> (i: Instruction)
    ensures
        i == Instruction::Tx(TxInstruction::Abort(id)),
{
    Instruction::Tx(TxInstruction::Abort(id))
}

/// Call a named pure function.
pub fn call_pure(name: &str, args: Vec<Val>) -> (i: Instruction)
    ensures
        i matches Instruction::Pure(PureInstruction::Call { name: n, args: a }) && n@ == name@
            && a == args,
{
    Instruction::Pure(PureInstruction::Call { name: name.to_owned(), args })
}

} // verus!
