//! Laws that tie the tape machine, the control flow graph and its drawing
//! together: a branch goes where its condition says, the graph's edges go
//! where the machine goes, and the drawing labels each edge with the
//! condition under which the machine takes it.
use super::cfg::{
    block_fits, block_index, ends_block, terminator_for, is_block_decomposition, lemma_block_index_bounded, lemma_block_index_monotone,
    lemma_blocks_partition_the_tape, BasicBlock, BlockId, Terminator,
};
use super::mermaid::{block_id_text, edges_text, reg_text};
use super::program::{targets_in_range, Op};
use super::program::MAX_REGS;
use super::step::{finished_at, pc_after, regs_after};
use crate::error::{AVMError, BaseError, ObjError, PureLayerError, TxLayerError};
use crate::types::val::{val_view, ValView};
use vstd::prelude::*;

verus! {

/// Operation `i` lies in block `b`.
pub open spec fn holds(b: BasicBlock, i: int) -> bool {
    b.start <= i < b.end
}

/// A branch goes to its target exactly when its condition holds, and to the
/// next operation otherwise: `BranchTrue` when its register holds
/// `Bool(true)` (a `Bool(false)` or any other value falls through),
/// `BranchNothing` when its register holds `Nothing`; a `Jump` always goes to
/// its target; every other operation goes to the next one.
pub proof fn lemma_branches_follow_their_condition(op: Op, regs: Seq<ValView>, pc: int)
    ensures
        match op {
            Op::BranchTrue { reg, target } => {
                &&& regs[reg as int] == ValView::Bool(true) ==> pc_after(op, regs, pc) == target
                &&& regs[reg as int] != ValView::Bool(true) ==> pc_after(op, regs, pc) == pc + 1
            },
            Op::BranchNothing { reg, target } => {
                &&& regs[reg as int] is Nothing ==> pc_after(op, regs, pc) == target
                &&& !(regs[reg as int] is Nothing) ==> pc_after(op, regs, pc) == pc + 1
            },
            Op::Jump { target } => pc_after(op, regs, pc) == target,
            _ => pc_after(op, regs, pc) == pc + 1,
        },
{
}

/// Every operation lies in the block whose number is its block index.
pub proof fn lemma_block_of(ops: Seq<Op>, blocks: Seq<BasicBlock>, i: int)
    requires
        ops.len() > 0,
        is_block_decomposition(ops, blocks),
        0 <= i < ops.len(),
    ensures
        block_index(ops, i) < blocks.len(),
        block_index(ops, i) <= i,
        holds(blocks[block_index(ops, i) as int], i),
{
    lemma_block_index_bounded(ops, i);
    let n = ops.len() as int;
    lemma_block_index_monotone(ops, i, n - 1);
    let j = block_index(ops, i) as int;
    let b = blocks[j];
    assert(block_fits(ops, b, j));
    if i < b.start {
        lemma_block_index_monotone(ops, i, b.start - 1);
    }
    if i >= b.end {
        lemma_block_index_monotone(ops, b.end as int, i);
    }
}

/// The edges of the graph are the machine's moves: a block that ends in a
/// branch on register `reg` has its "then" edge to the block that holds the
/// branch's target and its "else" edge to the next block in tape order (to
/// the "then" block when the branch is the last operation of the tape); a
/// block that ends in a jump has its edge to the block that holds the jump's
/// target; a block that ends in a plain operation before the end of the tape
/// goes on to the next block, and one at the end falls off.
pub proof fn lemma_edges_follow_the_machine(ops: Seq<Op>, blocks: Seq<BasicBlock>, k: int)
    requires
        0 < ops.len() <= usize::MAX,
        targets_in_range(ops),
        is_block_decomposition(ops, blocks),
        0 <= k < blocks.len(),
    ensures
        blocks.len() <= ops.len(),
        ({
            let b = blocks[k];
            let last = ops[b.end - 1];
            let next_ok = b.end < ops.len() ==> k + 1 < blocks.len() && blocks[k + 1].start
                == b.end && holds(blocks[k + 1], b.end as int);
            match b.terminator {
                Terminator::BranchTrue { reg, then_block, else_block } => match last {
                    Op::BranchTrue { reg: r, target } => {
                        &&& r == reg
                        &&& then_block.0 < blocks.len()
                        &&& holds(blocks[then_block.0 as int], target as int)
                        &&& next_ok
                        &&& b.end < ops.len() ==> else_block == BlockId((k + 1) as usize)
                        &&& b.end == ops.len() ==> else_block == then_block
                    },
                    _ => false,
                },
                Terminator::BranchNothing { reg, then_block, else_block } => match last {
                    Op::BranchNothing { reg: r, target } => {
                        &&& r == reg
                        &&& then_block.0 < blocks.len()
                        &&& holds(blocks[then_block.0 as int], target as int)
                        &&& next_ok
                        &&& b.end < ops.len() ==> else_block == BlockId((k + 1) as usize)
                        &&& b.end == ops.len() ==> else_block == then_block
                    },
                    _ => false,
                },
                Terminator::Jump(to) => match last {
                    Op::Jump { target } => to.0 < blocks.len() && holds(
                        blocks[to.0 as int],
                        target as int,
                    ),
                    _ => !ends_block(last) && b.end < ops.len() && next_ok && to == BlockId(
                        (k + 1) as usize,
                    ),
                },
                Terminator::Return { reg } => last == (Op::Return { reg }),
                Terminator::Halt { message } => last == (Op::Halt { message }),
                Terminator::FallOff => !ends_block(last) && b.end == ops.len(),
            }
        }),
{
    let b = blocks[k];
    lemma_block_index_bounded(ops, ops.len() - 1);
    lemma_terminator_of(ops, blocks, k);
    if b.end < ops.len() {
        lemma_next_block(ops, blocks, k);
    }
    let e = b.end as int;
    match ops[e - 1] {
        Op::BranchTrue { reg, target } => {
            assert(is_branch_or_jump_at(ops, e - 1));
            lemma_block_of(ops, blocks, target as int);
        },
        Op::BranchNothing { reg, target } => {
            assert(is_branch_or_jump_at(ops, e - 1));
            lemma_block_of(ops, blocks, target as int);
        },
        Op::Jump { target } => {
            assert(is_branch_or_jump_at(ops, e - 1));
            lemma_block_of(ops, blocks, target as int);
        },
        _ => {},
    }
}

/// Block `k` ends with the terminator its last operation calls for.
proof fn lemma_terminator_of(ops: Seq<Op>, blocks: Seq<BasicBlock>, k: int)
    requires
        is_block_decomposition(ops, blocks),
        0 <= k < blocks.len(),
    ensures
        0 < blocks[k].end <= ops.len(),
        blocks[k].start < blocks[k].end,
        blocks[k].terminator == terminator_for(ops, k as nat, blocks[k].end as int),
{
    assert(block_fits(ops, blocks[k], k));
}

/// A block that ends before the tape does is followed by the block that
/// starts where it ends, whose number is the block index of that operation.
proof fn lemma_next_block(ops: Seq<Op>, blocks: Seq<BasicBlock>, k: int)
    requires
        ops.len() > 0,
        is_block_decomposition(ops, blocks),
        0 <= k < blocks.len(),
        blocks[k].end < ops.len(),
    ensures
        k + 1 < blocks.len(),
        blocks[k + 1].start == blocks[k].end,
        blocks[k + 1].start < blocks[k + 1].end,
        block_index(ops, blocks[k].end as int) == k + 1,
{
    lemma_blocks_partition_the_tape(ops, blocks);
    assert(k + 1 < blocks.len());
    assert(blocks[k].end == blocks[k + 1].start);
    assert(block_fits(ops, blocks[k + 1], k + 1));
    assert(blocks[k + 1].start < blocks[k + 1].end);
}

/// Operation `i` of `ops` is a branch or a jump whose target is in range.
spec fn is_branch_or_jump_at(ops: Seq<Op>, i: int) -> bool {
    super::program::is_branch_or_jump(ops[i]) && super::program::branch_target(ops[i]) < ops.len()
}

/// The machine leaves a block along the edge the graph draws for the
/// register's value: from the branch that ends a block, with the register
/// satisfying the branch's condition the machine lands in the "then" block,
/// otherwise it lands at the start of the "else" block.
pub proof fn lemma_machine_takes_the_labelled_edge(
    ops: Seq<Op>,
    blocks: Seq<BasicBlock>,
    k: int,
    regs: Seq<ValView>,
)
    requires
        0 < ops.len() <= usize::MAX,
        targets_in_range(ops),
        is_block_decomposition(ops, blocks),
        0 <= k < blocks.len(),
    ensures
        ({
            let b = blocks[k];
            let pc = b.end - 1;
            let to = pc_after(ops[pc], regs, pc);
            match b.terminator {
                Terminator::BranchTrue { reg, then_block, else_block } => {
                    &&& regs[reg as int] == ValView::Bool(true) ==> holds(
                        blocks[then_block.0 as int],
                        to,
                    )
                    &&& regs[reg as int] != ValView::Bool(true) && b.end < ops.len() ==> to
                        == blocks[else_block.0 as int].start
                },
                Terminator::BranchNothing { reg, then_block, else_block } => {
                    &&& regs[reg as int] is Nothing ==> holds(blocks[then_block.0 as int], to)
                    &&& !(regs[reg as int] is Nothing) && b.end < ops.len() ==> to
                        == blocks[else_block.0 as int].start
                },
                Terminator::Jump(t) => holds(blocks[t.0 as int], to),
                _ => true,
            }
        }),
{
    lemma_edges_follow_the_machine(ops, blocks, k);
    let b = blocks[k];
    let pc = b.end - 1;
    lemma_branches_follow_their_condition(ops[pc], regs, pc);
}

/// The drawing labels each branch edge with the condition under which the
/// machine takes it: for a block of a decomposition that ends in a branch on
/// register `reg` to `target`, the edge labelled `reg = Nothing` (or
/// `reg = true`) leads to the block that holds `target`, and the edge
/// labelled `reg ≠ Nothing` (or `reg ≠ true`) to the next block in tape
/// order.
pub proof fn lemma_drawn_edges_are_labelled_by_condition(
    ops: Seq<Op>,
    blocks: Seq<BasicBlock>,
    k: int,
)
    requires
        0 < ops.len() <= usize::MAX,
        targets_in_range(ops),
        is_block_decomposition(ops, blocks),
        0 <= k < blocks.len(),
        blocks[k].end < ops.len(),
    ensures
        ({
            let b = blocks[k];
            let from = "    "@ + block_id_text(BlockId(k as usize));
            let next = block_id_text(BlockId((k + 1) as usize));
            match ops[b.end - 1] {
                Op::BranchNothing { reg, target } => {
                    &&& holds(blocks[block_index(ops, target as int) as int], target as int)
                    &&& edges_text(b.id, b.terminator) == from + " -->|"@ + reg_text(reg)
                        + " = Nothing| "@ + block_id_text(
                        BlockId(block_index(ops, target as int) as usize),
                    ) + "\n"@ + from + " -->|"@ + reg_text(reg) + " \u{2260} Nothing| "@ + next
                        + "\n"@
                },
                Op::BranchTrue { reg, target } => {
                    &&& holds(blocks[block_index(ops, target as int) as int], target as int)
                    &&& edges_text(b.id, b.terminator) == from + " -->|"@ + reg_text(reg)
                        + " = true| "@ + block_id_text(
                        BlockId(block_index(ops, target as int) as usize),
                    ) + "\n"@ + from + " -->|"@ + reg_text(reg) + " \u{2260} true| "@ + next
                        + "\n"@
                },
                _ => true,
            }
        }),
{
    lemma_edges_follow_the_machine(ops, blocks, k);
    let b = blocks[k];
    assert(block_fits(ops, b, k));
    match ops[b.end - 1] {
        Op::BranchNothing { reg, target } => {
            lemma_block_of(ops, blocks, target as int);
            let j = block_index(ops, target as int) as int;
            let t = b.terminator;
            let then_block = t->BranchNothing_then_block;
            // Blocks hold disjoint spans, so the block that holds `target`
            // is the "then" block.
            assert(block_fits(ops, blocks[then_block.0 as int], then_block.0 as int));
            assert(block_fits(ops, blocks[j], j));
            assert(then_block.0 == j);
        },
        Op::BranchTrue { reg, target } => {
            lemma_block_of(ops, blocks, target as int);
            let j = block_index(ops, target as int) as int;
            let t = b.terminator;
            let then_block = t->BranchTrue_then_block;
            assert(block_fits(ops, blocks[then_block.0 as int], then_block.0 as int));
            assert(block_fits(ops, blocks[j], j));
            assert(then_block.0 == j);
        },
        _ => {},
    }
}

/// The drawing of a block's other exits: a jump's edge leads to the block
/// that holds the jump's target; a block that ends in a plain operation
/// leads to the next block in tape order, or to the end when it is the last
/// one; a return is drawn as the edge `return rN` to the end, and a halt as
/// an edge to the end.
pub proof fn lemma_drawn_exits_follow_the_machine(ops: Seq<Op>, blocks: Seq<BasicBlock>, k: int)
    requires
        0 < ops.len() <= usize::MAX,
        targets_in_range(ops),
        is_block_decomposition(ops, blocks),
        0 <= k < blocks.len(),
    ensures
        ({
            let b = blocks[k];
            let from = "    "@ + block_id_text(BlockId(k as usize));
            let last = ops[b.end - 1];
            match last {
                Op::Jump { target } => {
                    &&& holds(blocks[block_index(ops, target as int) as int], target as int)
                    &&& edges_text(b.id, b.terminator) == from + " --> "@ + block_id_text(
                        BlockId(block_index(ops, target as int) as usize),
                    ) + "\n"@
                },
                Op::Return { reg } => edges_text(b.id, b.terminator) == from + " -->|return "@
                    + reg_text(reg) + "| END([End])\n"@,
                Op::Halt { .. } => edges_text(b.id, b.terminator) == from + " --> END([End])\n"@,
                Op::BranchNothing { .. } => true,
                Op::BranchTrue { .. } => true,
                _ => {
                    &&& b.end < ops.len() ==> edges_text(b.id, b.terminator) == from + " --> "@
                        + block_id_text(BlockId((k + 1) as usize)) + "\n"@
                    &&& b.end == ops.len() ==> edges_text(b.id, b.terminator) == from
                        + " --> END([End])\n"@
                },
            }
        }),
{
    lemma_edges_follow_the_machine(ops, blocks, k);
    let b = blocks[k];
    assert(block_fits(ops, b, k));
    match ops[b.end - 1] {
        Op::Jump { target } => {
            lemma_block_of(ops, blocks, target as int);
            let j = block_index(ops, target as int) as int;
            let to = b.terminator->Jump_0;
            assert(block_fits(ops, blocks[to.0 as int], to.0 as int));
            assert(block_fits(ops, blocks[j], j));
            assert(to.0 == j);
        },
        _ => {},
    }
}

/// What one operation does to the registers: `LoadConst` writes its
/// constant into its result register, `Move` copies `src` into `dst`,
/// `MakeList` writes into its result register the list of the `count`
/// registers from `start` on, `UnwrapJust` writes the contents of a `Just`
/// (any other value as it is); every other register keeps its value, and
/// every other operation writes no register.
pub proof fn lemma_step_writes_one_register(op: Op, regs: Seq<ValView>, r: int)
    requires
        regs.len() == MAX_REGS,
        0 <= r < regs.len(),
        op matches Op::MakeList { start, count, .. } ==> start + count <= MAX_REGS,
    ensures
        regs_after(op, regs).len() == regs.len(),
        match op {
            Op::LoadConst { val, result } => regs_after(op, regs)[r] == if r == result {
                val_view(val)
            } else {
                regs[r]
            },
            Op::Move { src, dst } => regs_after(op, regs)[r] == if r == dst {
                regs[src as int]
            } else {
                regs[r]
            },
            Op::MakeList { start, count, result } => if r == result {
                regs_after(op, regs)[r] matches ValView::List(items) && items.len() == count && forall|
                    i: int,
                | 0 <= i < count ==> #[trigger] items[i] == regs[start + i]
            } else {
                regs_after(op, regs)[r] == regs[r]
            },
            Op::UnwrapJust { src, result } => regs_after(op, regs)[r] == if r == result {
                match regs[src as int] {
                    ValView::Just(inner) => *inner,
                    other => other,
                }
            } else {
                regs[r]
            },
            _ => regs_after(op, regs)[r] == regs[r],
        },
{
}

/// How a program ends: past its last operation it gives `Nothing`; a
/// `Return` gives the value of its register; a `Halt` fails with `Halted`
/// and the halt's message; every other operation lets it go on.
pub proof fn lemma_how_programs_end(ops: Seq<Op>, regs: Seq<ValView>, pc: int)
    requires
        0 <= pc,
    ensures
        pc >= ops.len() ==> finished_at(ops, regs, pc) == Some(Ok::<ValView, AVMError>(ValView::Nothing)),
        pc < ops.len() ==> match ops[pc] {
            Op::Return { reg } => finished_at(ops, regs, pc) == Some(
                Ok::<ValView, AVMError>(regs[reg as int]),
            ),
            Op::Halt { message } => finished_at(ops, regs, pc) == Some(
                Err::<ValView, AVMError>(
                    AVMError::PureLayer(
                        PureLayerError::TxLayer(
                            TxLayerError::Base(BaseError::Obj(ObjError::Halted(message))),
                        ),
                    ),
                ),
            ),
            _ => finished_at(ops, regs, pc) is None,
        },
{
}

} // verus!
