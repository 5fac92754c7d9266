//! Object metadata and reification types.
use super::ids::copy_controller;
use super::{ControllerId, Input, MachineId, ObjectId, TxId, Val, VarId};
use vstd::prelude::*;

verus! {

/// Runtime metadata for an AVM object.
///
/// Every object carries immutable provenance (creating controller) and mutable
/// ownership (current controller). The machine field tracks physical location.
#[derive(Debug, PartialEq)]
pub struct ObjectMeta {
    pub object_id: ObjectId,
    pub machine: MachineId,
    pub creating_controller: Option<ControllerId>,
    pub current_controller: Option<ControllerId>,
}

impl Clone for ObjectMeta {
    fn clone(&self) -> (r: Self)
        ensures
            r == *self,
    {
        ObjectMeta {
            object_id: self.object_id,
            machine: self.machine.clone(),
            creating_controller: copy_controller(&self.creating_controller),
            current_controller: copy_controller(&self.current_controller),
        }
    }
}

/// Snapshot of the current execution context.
#[derive(Debug, Clone, PartialEq)]
pub struct ReifiedContext {
    pub self_id: ObjectId,
    pub input: Input,
    pub sender: Option<ObjectId>,
    pub machine: MachineId,
    pub controller: Option<ControllerId>,
}

/// Snapshot of the active transaction's pending writes.
#[derive(Debug, Clone, PartialEq)]
pub struct ReifiedTxState {
    pub tx_id: TxId,
    pub writes: Vec<(ObjectId, Input)>,
    pub creates: Vec<ObjectId>,
    pub destroys: Vec<ObjectId>,
    pub observed: Vec<ObjectId>,
}

/// Snapshot of the constraint solver state.
#[derive(Debug, Clone, PartialEq)]
pub struct ReifiedConstraints {
    pub variable_count: u64,
    pub domains: Vec<(VarId, Vec<Val>)>,
}

} // verus!
