//! Rendering of a control flow graph as a Mermaid flowchart.
use super::cfg::{block_fits, is_block_decomposition, BasicBlock, BlockId, Cfg, Terminator};
use super::program::{Op, Tape};
use crate::instruction::{Instruction, IntrospectInstruction, ObjInstruction, TxInstruction};
use crate::text::{decimal_text, push_decimal};
use crate::types::val::val_text;
use vstd::prelude::*;

verus! {

/// The short name of an instruction, as the labels show it.
pub open spec fn instr_name_text(instr: Instruction) -> Seq<char> {
    match instr {
        Instruction::Obj(o) => match o {
            ObjInstruction::Create { .. } => "create_obj"@,
            ObjInstruction::Destroy(_) => "destroy_obj"@,
            ObjInstruction::Call { .. } => "call"@,
            ObjInstruction::Receive => "receive"@,
        },
        Instruction::Introspect(i) => match i {
            IntrospectInstruction::GetSelf => "get_self"@,
            IntrospectInstruction::GetInput => "get_input"@,
            IntrospectInstruction::GetCurrentMachine => "get_machine"@,
            IntrospectInstruction::GetState => "get_state"@,
            IntrospectInstruction::SetState(_) => "set_state"@,
            IntrospectInstruction::GetSender => "get_sender"@,
        },
        Instruction::Tx(t) => match t {
            TxInstruction::Begin(_) => "begin_tx"@,
            TxInstruction::Commit(_) => "commit_tx"@,
            TxInstruction::Abort(_) => "abort_tx"@,
        },
        Instruction::Pure(_) => "call_pure"@,
        Instruction::Reflect(_) => "reflect"@,
        Instruction::Reify(_) => "reify"@,
        Instruction::Machine(_) => "machine"@,
        Instruction::Controller(_) => "controller"@,
        Instruction::Fd(_) => "fd"@,
        Instruction::Nondet(_) => "nondet"@,
    }
}

/// The name of register `r`: `r` and its number.
pub open spec fn reg_text(r: u8) -> Seq<char> {
    "r"@ + decimal_text(r as nat)
}

/// The name of block `b`: `B` and its number.
pub open spec fn block_id_text(b: BlockId) -> Seq<char> {
    "B"@ + decimal_text(b.0 as nat)
}

/// The description of one operation in a block label.
pub open spec fn op_text(op: Op) -> Seq<char> {
    match op {
        Op::Effect { instr, result } => reg_text(result) + " = "@ + instr_name_text(instr),
        Op::LoadConst { val, result } => reg_text(result) + " = "@ + val_text(val@),
        Op::Move { src, dst } => reg_text(dst) + " = "@ + reg_text(src),
        Op::MakeList { start, count, result } => reg_text(result) + " = list("@ + reg_text(start)
            + "..+"@ + decimal_text(count as nat) + ")"@,
        Op::UnwrapJust { src, result } => reg_text(result) + " = unwrap("@ + reg_text(src) + ")"@,
        Op::Return { reg } => "return "@ + reg_text(reg),
        Op::BranchNothing { reg, .. } => "if "@ + reg_text(reg) + " = Nothing"@,
        Op::BranchTrue { reg, .. } => "if "@ + reg_text(reg) + " = true"@,
        Op::Jump { .. } => "jump"@,
        Op::Halt { .. } => "halt"@,
    }
}

/// The descriptions of `ops`, joined by a backslash and `n` (Mermaid's line
/// break).
pub open spec fn ops_text(ops: Seq<Op>) -> Seq<char>
    decreases ops.len(),
{
    if ops.len() == 0 {
        Seq::empty()
    } else if ops.len() == 1 {
        op_text(ops[0])
    } else {
        ops_text(ops.drop_last()) + "\\n"@ + op_text(ops.last())
    }
}

/// The label of block `b` of `ops`: its operations, or `(empty)`.
pub open spec fn block_label_text(ops: Seq<Op>, b: BasicBlock) -> Seq<char> {
    if b.start >= b.end {
        "(empty)"@
    } else {
        ops_text(ops.subrange(b.start as int, b.end as int))
    }
}

/// The edges of block `id`, which ends with `t`.
pub open spec fn edges_text(id: BlockId, t: Terminator) -> Seq<char> {
    let from = "    "@ + block_id_text(id);
    match t {
        Terminator::Return { reg } => from + " -->|return "@ + reg_text(reg) + "| END([End])\n"@,
        Terminator::Jump(to) => from + " --> "@ + block_id_text(to) + "\n"@,
        Terminator::BranchNothing { reg, then_block, else_block } => from + " -->|"@ + reg_text(reg)
            + " = Nothing| "@ + block_id_text(then_block) + "\n"@ + from + " -->|"@ + reg_text(reg)
            + " \u{2260} Nothing| "@ + block_id_text(else_block) + "\n"@,
        Terminator::BranchTrue { reg, then_block, else_block } => from + " -->|"@ + reg_text(reg)
            + " = true| "@ + block_id_text(then_block) + "\n"@ + from + " -->|"@ + reg_text(reg)
            + " \u{2260} true| "@ + block_id_text(else_block) + "\n"@,
        Terminator::Halt { .. } => from + " --> END([End])\n"@,
        Terminator::FallOff => from + " --> END([End])\n"@,
    }
}

/// The lines of the flowchart for block `b`: its node, then its edges.
pub open spec fn block_text(ops: Seq<Op>, b: BasicBlock) -> Seq<char> {
    "    "@ + block_id_text(b.id) + "[\""@ + block_label_text(ops, b) + "\"]\n"@ + edges_text(
        b.id,
        b.terminator,
    )
}

/// The lines of the flowchart for `blocks`, in order.
pub open spec fn blocks_text(ops: Seq<Op>, blocks: Seq<BasicBlock>) -> Seq<char>
    decreases blocks.len(),
{
    if blocks.len() == 0 {
        Seq::empty()
    } else {
        blocks_text(ops, blocks.drop_last()) + block_text(ops, blocks.last())
    }
}

/// Every non-empty block of `blocks` lies inside `ops`.
pub open spec fn blocks_within(ops: Seq<Op>, blocks: Seq<BasicBlock>) -> bool {
    forall|k: int|
        0 <= k < blocks.len() ==> (#[trigger] blocks[k]).start < blocks[k].end ==> blocks[k].end
            <= ops.len()
}

impl BlockId {
    /// The display text of this block id, e.g. `B2`.
    pub fn display_string(&self) -> (s: String)
        ensures
            s@ == block_id_text(*self),
    {
        let mut s = String::new();
        push_block_id(&mut s, *self);
        s
    }
}

/// Every graph that [`Cfg::from_tape`] builds can be drawn: the blocks of a
/// block decomposition lie inside the tape.
pub proof fn lemma_decomposition_blocks_within(ops: Seq<Op>, blocks: Seq<BasicBlock>)
    requires
        is_block_decomposition(ops, blocks),
    ensures
        blocks_within(ops, blocks),
{
    assert forall|k: int| 0 <= k < blocks.len() && (#[trigger] blocks[k]).start < blocks[k].end
        implies blocks[k].end <= ops.len() by {
        assert(block_fits(ops, blocks[k], k));
    }
}

/// Short name for an instruction (for labels).
fn instr_name(instr: &Instruction) -> (s: &'static str)
    ensures
        s@ == instr_name_text(*instr),
{
    match instr {
        Instruction::Obj(o) => match o {
            ObjInstruction::Create { .. } => "create_obj",
            ObjInstruction::Destroy(_) => "destroy_obj",
            ObjInstruction::Call { .. } => "call",
            ObjInstruction::Receive => "receive",
        },
        Instruction::Introspect(i) => match i {
            IntrospectInstruction::GetSelf => "get_self",
            IntrospectInstruction::GetInput => "get_input",
            IntrospectInstruction::GetCurrentMachine => "get_machine",
            IntrospectInstruction::GetState => "get_state",
            IntrospectInstruction::SetState(_) => "set_state",
            IntrospectInstruction::GetSender => "get_sender",
        },
        Instruction::Tx(t) => match t {
            TxInstruction::Begin(_) => "begin_tx",
            TxInstruction::Commit(_) => "commit_tx",
            TxInstruction::Abort(_) => "abort_tx",
        },
        Instruction::Pure(_) => "call_pure",
        Instruction::Reflect(_) => "reflect",
        Instruction::Reify(_) => "reify",
        Instruction::Machine(_) => "machine",
        Instruction::Controller(_) => "controller",
        Instruction::Fd(_) => "fd",
        Instruction::Nondet(_) => "nondet",
    }
}

/// Appends the name of register `r`.
fn push_reg(out: &mut String, r: u8)
    ensures
        final(out)@ == old(out)@ + reg_text(r),
{
    out.append("r");
    push_decimal(out, r as u64);
}

/// Appends the name of block `b`.
fn push_block_id(out: &mut String, b: BlockId)
    ensures
        final(out)@ == old(out)@ + block_id_text(b),
{
    out.append("B");
    push_decimal(out, b.0 as u64);
}

/// Appends the description of `op`.
fn push_op(out: &mut String, op: &Op)
    ensures
        final(out)@ == old(out)@ + op_text(*op),
{
    let ghost start = out@;
    match op {
        Op::Effect { instr, result } => {
            push_reg(out, *result);
            out.append(" = ");
            out.append(instr_name(instr));
        },
        Op::LoadConst { val, result } => {
            push_reg(out, *result);
            out.append(" = ");
            val.write_to(out);
        },
        Op::Move { src, dst } => {
            push_reg(out, *dst);
            out.append(" = ");
            push_reg(out, *src);
        },
        Op::MakeList { start, count, result } => {
            push_reg(out, *result);
            out.append(" = list(");
            push_reg(out, *start);
            out.append("..+");
            push_decimal(out, *count as u64);
            out.append(")");
        },
        Op::UnwrapJust { src, result } => {
            push_reg(out, *result);
            out.append(" = unwrap(");
            push_reg(out, *src);
            out.append(")");
        },
        Op::Return { reg } => {
            out.append("return ");
            push_reg(out, *reg);
        },
        Op::BranchNothing { reg, .. } => {
            out.append("if ");
            push_reg(out, *reg);
            out.append(" = Nothing");
        },
        Op::BranchTrue { reg, .. } => {
            out.append("if ");
            push_reg(out, *reg);
            out.append(" = true");
        },
        Op::Jump { .. } => out.append("jump"),
        Op::Halt { .. } => out.append("halt"),
    }
    assert(out@ =~= start + op_text(*op));
}

/// Build a human-readable label for a basic block.
fn block_label(tape: &Tape, block: &BasicBlock) -> (s: String)
    requires
        block.start < block.end ==> block.end <= tape.ops@.len(),
    ensures
        s@ == block_label_text(tape.ops@, *block),
{
    if block.start >= block.end {
        return String::from_str("(empty)");
    }
    let ghost ops = tape.ops@.subrange(block.start as int, block.end as int);
    let mut out = String::new();
    let mut i: usize = block.start;
    while i < block.end
        invariant
            block.start <= i <= block.end <= tape.ops@.len(),
            ops == tape.ops@.subrange(block.start as int, block.end as int),
            out@ == ops_text(ops.take(i - block.start)),
        decreases block.end - i,
    {
        let ghost done = ops.take(i - block.start);
        let ghost next = ops.take(i - block.start + 1);
        proof {
            assert(next.drop_last() =~= done);
            assert(next.last() == tape.ops@[i as int]);
        }
        if i > block.start {
            out.append("\\n");
        }
        push_op(&mut out, &tape.ops[i]);
        proof {
            if i == block.start {
                assert(out@ =~= op_text(next[0]));
            } else {
                assert(out@ =~= ops_text(done) + "\\n"@ + op_text(next.last()));
            }
        }
        i = i + 1;
    }
    proof {
        assert(ops.take(block.end - block.start) =~= ops);
    }
    out
}

/// Appends `    ` and the name of block `id`.
fn push_from(out: &mut String, id: BlockId)
    ensures
        final(out)@ == old(out)@ + ("    "@ + block_id_text(id)),
{
    let ghost start = out@;
    out.append("    ");
    push_block_id(out, id);
    assert(out@ =~= start + ("    "@ + block_id_text(id)));
}

/// Appends the edges of block `id`, which ends with `t`.
fn push_edges(out: &mut String, id: BlockId, t: &Terminator)
    ensures
        final(out)@ == old(out)@ + edges_text(id, *t),
{
    let ghost start = out@;
    match t {
        Terminator::Return { reg } => {
            push_from(out, id);
            out.append(" -->|return ");
            push_reg(out, *reg);
            out.append("| END([End])\n");
        },
        Terminator::Jump(to) => {
            push_from(out, id);
            out.append(" --> ");
            push_block_id(out, *to);
            out.append("\n");
        },
        Terminator::BranchNothing { reg, then_block, else_block } => {
            push_from(out, id);
            out.append(" -->|");
            push_reg(out, *reg);
            out.append(" = Nothing| ");
            push_block_id(out, *then_block);
            out.append("\n");
            push_from(out, id);
            out.append(" -->|");
            push_reg(out, *reg);
            out.append(" \u{2260} Nothing| ");
            push_block_id(out, *else_block);
            out.append("\n");
        },
        Terminator::BranchTrue { reg, then_block, else_block } => {
            push_from(out, id);
            out.append(" -->|");
            push_reg(out, *reg);
            out.append(" = true| ");
            push_block_id(out, *then_block);
            out.append("\n");
            push_from(out, id);
            out.append(" -->|");
            push_reg(out, *reg);
            out.append(" \u{2260} true| ");
            push_block_id(out, *else_block);
            out.append("\n");
        },
        Terminator::Halt { .. } => {
            push_from(out, id);
            out.append(" --> END([End])\n");
        },
        Terminator::FallOff => {
            push_from(out, id);
            out.append(" --> END([End])\n");
        },
    }
    assert(out@ =~= start + edges_text(id, *t));
}

/// Appends the flowchart lines of block `b`.
fn push_block(out: &mut String, tape: &Tape, b: &BasicBlock)
    requires
        b.start < b.end ==> b.end <= tape.ops@.len(),
    ensures
        final(out)@ == old(out)@ + block_text(tape.ops@, *b),
{
    let ghost start = out@;
    let label = block_label(tape, b);
    push_from(out, b.id);
    out.append("[\"");
    out.append(label.as_str());
    out.append("\"]\n");
    push_edges(out, b.id, &b.terminator);
    assert(out@ =~= start + block_text(tape.ops@, *b));
}

impl Cfg {
    /// Render the CFG as a Mermaid flowchart: `graph TD`, then for each block
    /// in order its node, labelled with its operations, and its edges.
    pub fn to_mermaid(&self, tape: &Tape) -> (s: String)
        requires
            blocks_within(tape.ops@, self.blocks@),
        ensures
            s@ == "graph TD\n"@ + blocks_text(tape.ops@, self.blocks@),
    {
        let mut out = String::from_str("graph TD\n");
        let mut k: usize = 0;
        while k < self.blocks.len()
            invariant
                k <= self.blocks@.len(),
                blocks_within(tape.ops@, self.blocks@),
                out@ == "graph TD\n"@ + blocks_text(tape.ops@, self.blocks@.take(k as int)),
            decreases self.blocks@.len() - k,
        {
            proof {
                assert(self.blocks@.take(k + 1).drop_last() =~= self.blocks@.take(k as int));
                assert(self.blocks@[k as int].start < self.blocks@[k as int].end
                    ==> self.blocks@[k as int].end <= tape.ops@.len());
            }
            push_block(&mut out, tape, &self.blocks[k]);
            proof {
                assert(out@ =~= "graph TD\n"@ + blocks_text(tape.ops@, self.blocks@.take(k + 1)));
            }
            k = k + 1;
        }
        proof {
            assert(self.blocks@.take(self.blocks@.len() as int) =~= self.blocks@);
        }
        out
    }
}

} // verus!
