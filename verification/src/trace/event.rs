//! Events, log entries and traces.
use crate::types::{ControllerId, Input, MachineId, ObjectId, Output, TxId};
use vstd::prelude::*;

verus! {

/// The type of event that occurred during execution.
#[derive(Debug, Clone)]
#[allow(inconsistent_fields)]
pub enum EventType {
    ObjectCreated { id: ObjectId, behavior_name: String },
    ObjectDestroyed(ObjectId),
    ObjectCalled { id: ObjectId, input: Input, output: Option<Output> },
    MessageReceived { id: ObjectId, input: Input },
    ObjectMoved { id: ObjectId, from: MachineId, to: MachineId },
    ExecutionMoved { from: MachineId, to: MachineId },
    ObjectFetched { id: ObjectId, machine: MachineId },
    ObjectTransferred { id: ObjectId, from: ControllerId, to: ControllerId },
    ObjectFrozen { id: ObjectId, controller: ControllerId },
    FunctionUpdated(String),
    TransactionStarted(TxId),
    TransactionCommitted(TxId),
    TransactionAborted(TxId),
    StateUpdated(ObjectId),
    ErrorOccurred(String),
}

/// A single log entry in the execution trace.
#[derive(Debug, Clone)]
pub struct LogEntry {
    pub timestamp: u64,
    pub event_type: EventType,
    pub executing_controller: Option<ControllerId>,
}

/// An ordered sequence of log entries from one execution.
pub type Trace = Vec<LogEntry>;

impl LogEntry {
    /// A log entry with the given timestamp, event and controller.
    pub fn new(timestamp: u64, event_type: EventType, controller: Option<ControllerId>) -> (e: Self)
        ensures
            e == (LogEntry { timestamp, event_type, executing_controller: controller }),
    {
        Self { timestamp, event_type, executing_controller: controller }
    }
}

/// The number of `true` entries in `bs`.
pub open spec fn count_true(bs: Seq<bool>) -> nat
    decreases bs.len(),
{
    if bs.len() == 0 {
        0
    } else {
        count_true(bs.drop_last()) + if bs.last() {
            1nat
        } else {
            0nat
        }
    }
}

/// Count the entries of `trace` whose event satisfies `predicate`: the
/// predicate is asked once per entry, in order, and the result is the number
/// of `true` answers.
pub fn count_events<F: Fn(&EventType) -> bool>(trace: &Trace, predicate: F) -> (n: usize)
    requires
        forall|e: &EventType| call_requires(predicate, (e,)),
    ensures
        exists|answers: Seq<bool>|
            {
                &&& answers.len() == trace@.len()
                &&& forall|i: int|
                    0 <= i < trace@.len() ==> call_ensures(
                        predicate,
                        (&trace@[i].event_type,),
                        #[trigger] answers[i],
                    )
                &&& n == count_true(answers)
            },
{
    let mut n: usize = 0;
    let mut i: usize = 0;
    let ghost mut answers: Seq<bool> = Seq::empty();
    while i < trace.len()
        invariant
            i <= trace@.len(),
            forall|e: &EventType| call_requires(predicate, (e,)),
            answers.len() == i,
            forall|j: int|
                0 <= j < i ==> call_ensures(predicate, (&trace@[j].event_type,), #[trigger] answers[j]),
            n == count_true(answers),
            n <= i,
        decreases trace@.len() - i,
    {
        let b = predicate(&trace[i].event_type);
        proof {
            let old_answers = answers;
            answers = answers.push(b);
            assert(answers.drop_last() =~= old_answers);
        }
        if b {
            n = n + 1;
        }
        i = i + 1;
    }
    n
}

} // verus!
