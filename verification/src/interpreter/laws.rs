//! Laws of the interpreter that span several handlers.
use super::dispatch::{dispatched, lifted, leaf_done, HandlerResult, Step};
use super::tx::{abort_outcome, begin_outcome};
use crate::error::AVMError;
use crate::instruction::{Instruction, ObjInstruction};
use crate::trace::{LogEntry, Trace};
use crate::types::{ControllerId, Val};
use crate::vm::State;
use vstd::prelude::*;

verus! {

/// The entries of `t` carry the consecutive timestamps `from`, `from + 1`, ...
pub open spec fn stamped_from(t: Seq<LogEntry>, from: int) -> bool {
    forall|i: int| 0 <= i < t.len() ==> #[trigger] t[i].timestamp == from + i
}

/// What an executed instruction did to the event counter: on success it
/// stamped its entries with consecutive timestamps from the counter on and
/// moved the counter past them; on failure it stamped nothing.
pub open spec fn counted<P>(before: State<P>, after: State<P>, d: Result<(Val, Trace), AVMError>) -> bool {
    match d {
        Ok((_, t)) => after.event_counter == before.event_counter + t@.len() && stamped_from(
            t@,
            before.event_counter as int,
        ),
        Err(_) => after.event_counter == before.event_counter,
    }
}

/// Every instruction that the state alone executes stamps its log entries
/// with consecutive timestamps, starting at the event counter, and moves the
/// counter past them; an instruction that fails stamps nothing and leaves the
/// counter where it was. So timestamps are never reused. (The counter is
/// below its maximum: an instruction at the maximum cannot stamp.)
pub proof fn lemma_dispatch_stamps_entries<P>(
    instr: Instruction,
    before: State<P>,
    after: State<P>,
    step: Step,
)
    requires
        dispatched(instr, before, after, step),
        step is Done,
        before.event_counter < u64::MAX,
    ensures
        counted(before, after, step->Done_0),
{
    match instr {
        Instruction::Obj(o) => {
            match step->Done_0 {
                Ok((_, t)) => {
                    assert(t@.len() == 1 && t@[0].timestamp == before.event_counter
                        && after.event_counter == before.event_counter + 1) by {
                        match o {
                            ObjInstruction::Create { .. } => {},
                            ObjInstruction::Destroy(id) => {},
                            ObjInstruction::Receive => {},
                            ObjInstruction::Call { .. } => {},
                        }
                    }
                    assert(stamped_from(t@, before.event_counter as int));
                },
                Err(_) => {},
            }
        },
        _ => {
            let r = choose|r: HandlerResult|
                #[trigger] lifted(r, step->Done_0) && leaf_done(instr, before, after, r);
            match r {
                Ok((v, e)) => {
                    match e {
                        Some(x) => {
                            assert(step->Done_0 matches Ok((_, t)) && t@ =~= seq![x]);
                        },
                        None => {},
                    }
                },
                Err(_) => {},
            }
        },
    }
}

/// An instruction outside the transaction layer never opens, closes or
/// changes the transaction: the active transaction, its controller, its
/// snapshot and the transaction id counter stay as they were.
pub proof fn lemma_non_tx_instructions_keep_the_transaction<P>(
    instr: Instruction,
    before: State<P>,
    after: State<P>,
    step: Step,
)
    requires
        dispatched(instr, before, after, step),
        !(instr is Tx),
    ensures
        after.tx == before.tx,
        after.tx_controller == before.tx_controller,
        after.tx_snapshot == before.tx_snapshot,
        after.fresh_ids.next_tx() == before.fresh_ids.next_tx(),
{
    match instr {
        Instruction::Obj(_) => {},
        Instruction::Pure(crate::instruction::PureInstruction::Call { .. }) => {},
        _ => {
            let r = choose|r: HandlerResult|
                #[trigger] lifted(r, step->Done_0) && leaf_done(instr, before, after, r);
        },
    }
}

/// Aborting a transaction restores the store it began with, whatever
/// happened in between, provided the transaction itself was left alone
/// (see [`lemma_non_tx_instructions_keep_the_transaction`]): if `s1` is `s0`
/// with a transaction begun, and `s2` has the same transaction and snapshot
/// as `s1`, then aborting it in `s2` succeeds and gives back `s0`'s store,
/// with no transaction active.
pub proof fn lemma_abort_restores_the_begin_store<P>(
    s0: State<P>,
    s1: State<P>,
    s2: State<P>,
    s3: State<P>,
    c: Option<ControllerId>,
    r1: HandlerResult,
    r3: HandlerResult,
)
    requires
        s0.tx is None,
        begin_outcome(s0, s1, c, r1),
        s2.tx == s1.tx,
        s2.tx_snapshot == s1.tx_snapshot,
        abort_outcome(s2, s3, s1.tx->0, r3),
    ensures
        r3 is Ok,
        s3.store@ == s0.store@,
        s3.tx is None,
        s3.tx_snapshot is None,
{
}

} // verus!
