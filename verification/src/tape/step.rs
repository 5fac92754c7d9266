//! The flat tape machine: a register file and a program counter.
//!
//! [`step`] executes one operation. Running a tape is stepping from
//! `pc == 0` with a register file of [`MAX_REGS`] `Nothing`s (see
//! [`registers`]) until a step finishes; a tape may loop forever, so the loop
//! itself belongs to the caller. `Effect` operations are skipped: their
//! result register keeps its value.
use super::program::{Op, MAX_REGS};
use crate::error::{AVMError, ObjError};
use crate::types::val::{
    copy_val, lemma_vals_view, lemma_vals_view_ext, val_view, vals_view, ValView,
};
use crate::types::Val;
use vstd::prelude::*;
use vstd::std_specs::convert::FromSpec;

verus! {

/// What one step of the tape machine leads to.
#[derive(Debug)]
pub enum TapeStep {
    /// Go on with the operation at the new program counter.
    Next,
    /// The program ended with this result.
    Done(Result<Val, AVMError>),
}

/// The error that a `Halt` operation ends the program with: `Halted`,
/// carrying the operation's message.
pub open spec fn halt_error(message: String) -> AVMError {
    <AVMError as FromSpec<ObjError>>::from_spec(ObjError::Halted(message))
}

/// The register file after `op`, the registers being modelled.
pub open spec fn regs_after(op: Op, regs: Seq<ValView>) -> Seq<ValView> {
    match op {
        Op::LoadConst { val, result } => regs.update(result as int, val_view(val)),
        Op::Move { src, dst } => regs.update(dst as int, regs[src as int]),
        Op::MakeList { start, count, result } => regs.update(
            result as int,
            ValView::List(regs.subrange(start as int, start + count)),
        ),
        Op::UnwrapJust { src, result } => regs.update(
            result as int,
            match regs[src as int] {
                ValView::Just(inner) => *inner,
                other => other,
            },
        ),
        _ => regs,
    }
}

/// The program counter after `op` at `pc`: a taken branch or a jump goes to
/// its target, anything else to the next operation.
pub open spec fn pc_after(op: Op, regs: Seq<ValView>, pc: int) -> int {
    match op {
        Op::BranchNothing { reg, target } => if regs[reg as int] is Nothing {
            target as int
        } else {
            pc + 1
        },
        Op::BranchTrue { reg, target } => if regs[reg as int] == ValView::Bool(true) {
            target as int
        } else {
            pc + 1
        },
        Op::Jump { target } => target as int,
        _ => pc + 1,
    }
}

/// The result that ends the program at `pc`, if it ends there: past the last
/// operation it gives `Nothing`; `Return` gives its register; `Halt` fails
/// with [`halt_error`] of its message.
pub open spec fn finished_at(ops: Seq<Op>, regs: Seq<ValView>, pc: int) -> Option<
    Result<ValView, AVMError>,
> {
    if pc >= ops.len() {
        Some(Ok(ValView::Nothing))
    } else {
        match ops[pc] {
            Op::Return { reg } => Some(Ok(regs[reg as int])),
            Op::Halt { message } => Some(Err(halt_error(message))),
            _ => None,
        }
    }
}

/// The operation at `pc` can run on a register file of [`MAX_REGS`]
/// registers: a `MakeList` reads no register past the last.
pub open spec fn op_fits(ops: Seq<Op>, pc: int) -> bool {
    pc < ops.len() ==> match ops[pc] {
        Op::MakeList { start, count, .. } => start + count <= MAX_REGS,
        _ => true,
    }
}

/// A fresh register file: [`MAX_REGS`] registers holding `Nothing`.
pub fn registers() -> (regs: Vec<Val>)
    ensures
        regs@.len() == MAX_REGS,
        forall|i: int| 0 <= i < MAX_REGS ==> #[trigger] regs@[i] == Val::Nothing,
{
    let mut regs: Vec<Val> = Vec::new();
    while regs.len() < MAX_REGS
        invariant
            regs@.len() <= MAX_REGS,
            forall|i: int| 0 <= i < regs@.len() ==> #[trigger] regs@[i] == Val::Nothing,
        decreases MAX_REGS - regs@.len(),
    {
        regs.push(Val::Nothing);
    }
    regs
}

/// The model of a sequence with one element replaced.
proof fn lemma_vals_view_update(items: Seq<Val>, i: int, v: Val)
    requires
        0 <= i < items.len(),
    ensures
        vals_view(items.update(i, v)) == vals_view(items).update(i, val_view(v)),
{
    lemma_vals_view(items);
    let after = items.update(i, v);
    lemma_vals_view(after);
    assert forall|j: int| 0 <= j < items.len() implies vals_view(after)[j] == vals_view(
        items,
    ).update(i, val_view(v))[j] by {
        assert(val_view(after[j]) == vals_view(after)[j]);
        if j != i {
            assert(after[j] == items[j]);
        }
    }
    assert(vals_view(after) =~= vals_view(items).update(i, val_view(v)));
}

/// Store `v` in register `r`.
fn put(regs: &mut Vec<Val>, r: u8, v: Val)
    requires
        old(regs)@.len() == MAX_REGS,
    ensures
        final(regs)@.len() == MAX_REGS,
        vals_view(final(regs)@) == vals_view(old(regs)@).update(r as int, val_view(v)),
{
    proof {
        lemma_vals_view_update(regs@, r as int, v);
    }
    regs.set(r as usize, v);
}

/// Execute the operation at `pc`: update the registers and the program
/// counter and return `Next`, or return `Done` with the program's result and
/// leave both unchanged.
pub fn step(ops: &Vec<Op>, regs: &mut Vec<Val>, pc: &mut usize) -> (s: TapeStep)
    requires
        old(regs)@.len() == MAX_REGS,
        op_fits(ops@, *old(pc) as int),
    ensures
        final(regs)@.len() == MAX_REGS,
        match finished_at(ops@, vals_view(old(regs)@), *old(pc) as int) {
            Some(res) => s is Done && *final(pc) == *old(pc) && final(regs)@ == old(regs)@
                && match s->Done_0 {
                Ok(v) => res == Ok::<ValView, AVMError>(v@),
                Err(e) => res == Err::<ValView, AVMError>(e),
            },
            None => s is Next && vals_view(final(regs)@) == regs_after(
                ops@[*old(pc) as int],
                vals_view(old(regs)@),
            ) && *final(pc) == pc_after(
                ops@[*old(pc) as int],
                vals_view(old(regs)@),
                *old(pc) as int,
            ),
        },
{
    proof {
        lemma_vals_view(regs@);
    }
    let i = *pc;
    if i >= ops.len() {
        return TapeStep::Done(Ok(Val::Nothing));
    }
    match &ops[i] {
        Op::Effect { .. } => {
            *pc = i + 1;
            TapeStep::Next
        },
        Op::LoadConst { val, result } => {
            put(regs, *result, copy_val(val));
            *pc = i + 1;
            TapeStep::Next
        },
        Op::Move { src, dst } => {
            let v = copy_val(&regs[*src as usize]);
            put(regs, *dst, v);
            *pc = i + 1;
            TapeStep::Next
        },
        Op::MakeList { start, count, result } => {
            let s = *start as usize;
            let c = *count as usize;
            let mut items: Vec<Val> = Vec::new();
            let mut k: usize = 0;
            while k < c
                invariant
                    s + c <= MAX_REGS,
                    regs@.len() == MAX_REGS,
                    k <= c,
                    items@.len() == k,
                    forall|j: int| 0 <= j < k ==> val_view(#[trigger] items@[j]) == val_view(regs@[s + j]),
                decreases c - k,
            {
                items.push(copy_val(&regs[s + k]));
                k = k + 1;
            }
            proof {
                let sub = regs@.subrange(s as int, (s + c) as int);
                lemma_vals_view_ext(items@, sub);
                lemma_vals_view(sub);
                assert forall|j: int| 0 <= j < c implies vals_view(sub)[j] == vals_view(
                    regs@,
                ).subrange(s as int, (s + c) as int)[j] by {
                    assert(val_view(sub[j]) == vals_view(sub)[j]);
                    assert(sub[j] == regs@[s + j]);
                    assert(val_view(regs@[s + j]) == vals_view(regs@)[s + j]);
                }
                assert(vals_view(sub) =~= vals_view(regs@).subrange(s as int, (s + c) as int));
            }
            put(regs, *result, Val::List(items));
            *pc = i + 1;
            TapeStep::Next
        },
        Op::UnwrapJust { src, result } => {
            let v = match &regs[*src as usize] {
                Val::Just(inner) => copy_val(inner),
                other => copy_val(other),
            };
            put(regs, *result, v);
            *pc = i + 1;
            TapeStep::Next
        },
        Op::BranchNothing { reg, target } => {
            if regs[*reg as usize].is_nothing() {
                *pc = *target;
            } else {
                *pc = i + 1;
            }
            TapeStep::Next
        },
        Op::BranchTrue { reg, target } => {
            if regs[*reg as usize].as_bool() == Some(true) {
                *pc = *target;
            } else {
                *pc = i + 1;
            }
            TapeStep::Next
        },
        Op::Jump { target } => {
            *pc = *target;
            TapeStep::Next
        },
        Op::Return { reg } => TapeStep::Done(Ok(copy_val(&regs[*reg as usize]))),
        Op::Halt { message } => TapeStep::Done(Err(AVMError::from(ObjError::Halted(message.clone())))),
    }
}

} // verus!
