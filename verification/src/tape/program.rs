//! Operations, tapes and the tape builder.
use crate::instruction::Instruction;
use crate::trace::count_true;
use crate::types::Val;
use vstd::prelude::*;

verus! {

/// Register index (0 to 255).
pub type Reg = u8;

/// Maximum number of registers in the register file.
pub const MAX_REGS: usize = 256;

/// A single operation in the tape.
#[derive(Debug)]
pub enum Op {
    /// Emit an AVM instruction; store the response in `result`.
    Effect { instr: Instruction, result: Reg },
    /// Store a constant value into a register.
    LoadConst { val: Val, result: Reg },
    /// Copy one register to another.
    Move { src: Reg, dst: Reg },
    /// Build a list from a range of consecutive registers.
    MakeList { start: Reg, count: u8, result: Reg },
    /// Unwrap `Just(v)` to `v`, or leave as-is.
    UnwrapJust { src: Reg, result: Reg },
    /// Branch to `target` if the register holds `Nothing`.
    BranchNothing { reg: Reg, target: usize },
    /// Branch to `target` if the register holds `Bool(true)`.
    BranchTrue { reg: Reg, target: usize },
    /// Unconditional jump.
    Jump { target: usize },
    /// Return the value in the register.
    Return { reg: Reg },
    /// Halt with an error message.
    Halt { message: String },
}

/// Whether `op` transfers control to a target index.
pub open spec fn is_branch_or_jump(op: Op) -> bool {
    op is BranchNothing || op is BranchTrue || op is Jump
}

/// The target index of a branch or jump.
pub open spec fn branch_target(op: Op) -> usize {
    match op {
        Op::BranchNothing { target, .. } => target,
        Op::BranchTrue { target, .. } => target,
        Op::Jump { target } => target,
        _ => 0,
    }
}

/// `op` with its branch or jump target replaced by `t`.
pub open spec fn with_target(op: Op, t: usize) -> Op {
    match op {
        Op::BranchNothing { reg, .. } => Op::BranchNothing { reg, target: t },
        Op::BranchTrue { reg, .. } => Op::BranchTrue { reg, target: t },
        Op::Jump { .. } => Op::Jump { target: t },
        _ => op,
    }
}

/// Every branch and jump of `ops` targets an index inside `ops`.
pub open spec fn targets_in_range(ops: Seq<Op>) -> bool {
    forall|j: int|
        0 <= j < ops.len() && is_branch_or_jump(#[trigger] ops[j]) ==> branch_target(ops[j])
            < ops.len()
}

/// A flat, contiguous program.
#[derive(Debug)]
pub struct Tape {
    pub ops: Vec<Op>,
    /// Number of registers actually used.
    pub register_count: u8,
}

impl Tape {
    /// Number of operations in the tape.
    pub fn len(&self) -> (n: usize)
        ensures
            n == self.ops@.len(),
    {
        self.ops.len()
    }

    /// Whether the tape is empty.
    pub fn is_empty(&self) -> (b: bool)
        ensures
            b == (self.ops@.len() == 0),
    {
        self.ops.len() == 0
    }
}

/// Builder for constructing tapes incrementally.
pub struct TapeBuilder {
    ops: Vec<Op>,
    next_reg: u8,
}

impl TapeBuilder {
    /// The operations emitted so far.
    pub closed spec fn ops(&self) -> Seq<Op> {
        self.ops@
    }

    /// The next register that will be allocated.
    pub closed spec fn next_reg(&self) -> u8 {
        self.next_reg
    }

    /// An empty builder.
    pub fn new() -> (b: Self)
        ensures
            b.ops() == Seq::<Op>::empty(),
            b.next_reg() == 0,
    {
        Self { ops: Vec::new(), next_reg: 0 }
    }

    /// Whether another register can be allocated.
    pub fn can_alloc_reg(&self) -> (b: bool)
        ensures
            b == (self.next_reg() < 255),
    {
        self.next_reg < 255
    }

    /// Allocate a fresh register: the next one in order. Register 255 is
    /// never handed out, so at most 255 registers are allocated.
    pub fn alloc_reg(&mut self) -> (r: Reg)
        requires
            old(self).next_reg() < 255,
        ensures
            r == old(self).next_reg(),
            final(self).next_reg() == r + 1,
            final(self).ops() == old(self).ops(),
    {
        let r = self.next_reg;
        self.next_reg = self.next_reg + 1;
        r
    }

    /// Emit an instruction effect, returning the result register.
    pub fn effect(&mut self, instr: Instruction) -> (r: Reg)
        requires
            old(self).next_reg() < 255,
        ensures
            r == old(self).next_reg(),
            final(self).next_reg() == r + 1,
            final(self).ops() == old(self).ops().push(Op::Effect { instr, result: r }),
    {
        let r = self.alloc_reg();
        self.ops.push(Op::Effect { instr, result: r });
        r
    }

    /// Load a constant into a fresh register.
    pub fn load_const(&mut self, val: Val) -> (r: Reg)
        requires
            old(self).next_reg() < 255,
        ensures
            r == old(self).next_reg(),
            final(self).next_reg() == r + 1,
            final(self).ops() == old(self).ops().push(Op::LoadConst { val, result: r }),
    {
        let r = self.alloc_reg();
        self.ops.push(Op::LoadConst { val, result: r });
        r
    }

    /// Copy a register into a fresh one.
    pub fn mov(&mut self, src: Reg) -> (r: Reg)
        requires
            old(self).next_reg() < 255,
        ensures
            r == old(self).next_reg(),
            final(self).next_reg() == r + 1,
            final(self).ops() == old(self).ops().push(Op::Move { src, dst: r }),
    {
        let r = self.alloc_reg();
        self.ops.push(Op::Move { src, dst: r });
        r
    }

    /// Build a list from consecutive registers `[start, start+count)`.
    pub fn make_list(&mut self, start: Reg, count: u8) -> (r: Reg)
        requires
            old(self).next_reg() < 255,
        ensures
            r == old(self).next_reg(),
            final(self).next_reg() == r + 1,
            final(self).ops() == old(self).ops().push(Op::MakeList { start, count, result: r }),
    {
        let r = self.alloc_reg();
        self.ops.push(Op::MakeList { start, count, result: r });
        r
    }

    /// Unwrap a `Just` value into a fresh register.
    pub fn unwrap_just(&mut self, src: Reg) -> (r: Reg)
        requires
            old(self).next_reg() < 255,
        ensures
            r == old(self).next_reg(),
            final(self).next_reg() == r + 1,
            final(self).ops() == old(self).ops().push(Op::UnwrapJust { src, result: r }),
    {
        let r = self.alloc_reg();
        self.ops.push(Op::UnwrapJust { src, result: r });
        r
    }

    /// Emit a branch on `Nothing` with a target still to be patched; returns
    /// its index.
    pub fn branch_nothing(&mut self, reg: Reg) -> (idx: usize)
        ensures
            idx == old(self).ops().len(),
            final(self).next_reg() == old(self).next_reg(),
            final(self).ops() == old(self).ops().push(Op::BranchNothing { reg, target: 0 }),
    {
        let idx = self.ops.len();
        self.ops.push(Op::BranchNothing { reg, target: 0 });
        idx
    }

    /// Emit a branch on `true` with a target still to be patched; returns its
    /// index.
    pub fn branch_true(&mut self, reg: Reg) -> (idx: usize)
        ensures
            idx == old(self).ops().len(),
            final(self).next_reg() == old(self).next_reg(),
            final(self).ops() == old(self).ops().push(Op::BranchTrue { reg, target: 0 }),
    {
        let idx = self.ops.len();
        self.ops.push(Op::BranchTrue { reg, target: 0 });
        idx
    }

    /// Emit an unconditional jump with a target still to be patched; returns
    /// its index.
    pub fn jump(&mut self) -> (idx: usize)
        ensures
            idx == old(self).ops().len(),
            final(self).next_reg() == old(self).next_reg(),
            final(self).ops() == old(self).ops().push(Op::Jump { target: 0 }),
    {
        let idx = self.ops.len();
        self.ops.push(Op::Jump { target: 0 });
        idx
    }

    /// Point the branch or jump at `branch_idx` to the current position (the
    /// index of the next operation to be emitted).
    pub fn patch(&mut self, branch_idx: usize)
        requires
            branch_idx < old(self).ops().len(),
            is_branch_or_jump(old(self).ops()[branch_idx as int]),
        ensures
            final(self).next_reg() == old(self).next_reg(),
            final(self).ops() == old(self).ops().update(
                branch_idx as int,
                with_target(old(self).ops()[branch_idx as int], old(self).ops().len() as usize),
            ),
    {
        let target = self.ops.len();
        let patched = match &self.ops[branch_idx] {
            Op::BranchNothing { reg, .. } => Op::BranchNothing { reg: *reg, target },
            Op::BranchTrue { reg, .. } => Op::BranchTrue { reg: *reg, target },
            _ => Op::Jump { target },
        };
        self.ops.set(branch_idx, patched);
    }

    /// Emit a return of the value in `reg`.
    pub fn ret(&mut self, reg: Reg)
        ensures
            final(self).next_reg() == old(self).next_reg(),
            final(self).ops() == old(self).ops().push(Op::Return { reg }),
    {
        self.ops.push(Op::Return { reg });
    }

    /// Emit a halt with the given message.
    pub fn halt(&mut self, message: &str)
        ensures
            final(self).next_reg() == old(self).next_reg(),
            final(self).ops().len() == old(self).ops().len() + 1,
            final(self).ops().drop_last() == old(self).ops(),
            final(self).ops().last() matches Op::Halt { message: m } && m@ == message@,
    {
        self.ops.push(Op::Halt { message: message.to_owned() });
        proof {
            assert(self.ops@.drop_last() =~= old(self).ops@);
        }
    }

    /// Current position: the index of the next operation to be emitted.
    pub fn pos(&self) -> (p: usize)
        ensures
            p == self.ops().len(),
    {
        self.ops.len()
    }

    /// Finalize into a [`Tape`].
    pub fn build(self) -> (t: Tape)
        ensures
            t.ops@ == self.ops(),
            t.register_count == self.next_reg(),
    {
        Tape { ops: self.ops, register_count: self.next_reg }
    }
}

/// `after` is `before` after one builder call that allocates a register
/// when `allocates` (`alloc_reg`, `effect`, `load_const`, `mov`,
/// `make_list`, `unwrap_just`) and allocates none otherwise: each
/// allocating call hands out `before.next_reg()` and needs it below 255.
pub open spec fn built(before: TapeBuilder, after: TapeBuilder, allocates: bool) -> bool {
    if allocates {
        before.next_reg() < 255 && after.next_reg() == before.next_reg() + 1
    } else {
        after.next_reg() == before.next_reg()
    }
}

/// Registers count the allocations: starting from a new builder, after any
/// sequence of calls (`allocs[i]` is whether call `i` allocates), the next
/// register is the number of registers allocated so far. So registers are
/// handed out as 0, 1, 2, ... with none reused, and at most 255 are
/// allocated: the call that would hand out register 255 is refused.
pub proof fn lemma_registers_count_allocations(builders: Seq<TapeBuilder>, allocs: Seq<bool>)
    requires
        builders.len() == allocs.len() + 1,
        builders[0].next_reg() == 0,
        forall|i: int|
            #![trigger allocs[i]]
            0 <= i < allocs.len() ==> built(builders[i], builders[i + 1], allocs[i]),
    ensures
        forall|i: int|
            0 <= i <= allocs.len() ==> #[trigger] builders[i].next_reg() == count_true(
                allocs.take(i),
            ),
        count_true(allocs) <= 255,
    decreases allocs.len(),
{
    if allocs.len() > 0 {
        let n = allocs.len() as int;
        let b0 = builders.drop_last();
        let a0 = allocs.drop_last();
        assert forall|i: int| #![trigger a0[i]] 0 <= i < a0.len() implies built(b0[i], b0[i + 1], a0[i]) by {
            assert(allocs[i] == a0[i]);
        }
        lemma_registers_count_allocations(b0, a0);
        assert forall|i: int| 0 <= i <= n implies #[trigger] builders[i].next_reg() == count_true(
            allocs.take(i),
        ) by {
            if i < n {
                assert(b0[i] == builders[i]);
                assert(a0.take(i) =~= allocs.take(i));
            } else {
                assert(b0[n - 1] == builders[n - 1]);
                assert(a0.take(n - 1) =~= a0);
                assert(allocs.take(n) =~= allocs);
                assert(allocs.take(n).drop_last() =~= a0);
                assert(allocs[n - 1] == allocs.last());
                assert(built(builders[n - 1], builders[n], allocs[n - 1]));
            }
        }
        assert(builders[n].next_reg() == count_true(allocs.take(n)));
        assert(allocs.take(n) =~= allocs);
    }
}

impl Default for TapeBuilder {
    fn default() -> (b: Self)
        ensures
            b.ops() == Seq::<Op>::empty(),
            b.next_reg() == 0,
    {
        Self::new()
    }
}

} // verus!
