//! Control flow graph extraction.
//!
//! Builds a [`Cfg`] from a [`Tape`] by splitting it at branch points.
use super::program::{branch_target, is_branch_or_jump, targets_in_range, Op, Tape};
use vstd::prelude::*;

verus! {

/// Unique identifier for a basic block.
#[derive(Debug, Clone, Copy, PartialEq, Eq, Hash, Structural)]
pub struct BlockId(pub usize);

/// How a basic block ends.
#[derive(Debug)]
pub enum Terminator {
    /// Return a value from a register.
    Return { reg: u8 },
    /// Unconditional jump.
    Jump(BlockId),
    /// Conditional branch (on Nothing).
    BranchNothing { reg: u8, then_block: BlockId, else_block: BlockId },
    /// Conditional branch (on true).
    BranchTrue { reg: u8, then_block: BlockId, else_block: BlockId },
    /// Program halts with an error.
    Halt { message: String },
    /// Falls off the end of the tape.
    FallOff,
}

/// A basic block: a straight-line run of operations `[start, end)` with no
/// internal branches.
#[derive(Debug)]
pub struct BasicBlock {
    pub id: BlockId,
    pub start: usize,
    pub end: usize,
    /// How this block ends.
    pub terminator: Terminator,
}

impl BasicBlock {
    /// Number of operations in the block, not counting the terminator
    /// instruction: the last operation when it is a branch, jump, return or
    /// halt. A block that falls through to the next one, or off the end of
    /// the tape, has no terminator instruction.
    pub fn len(&self, tape: &Tape) -> (n: usize)
        requires
            self.start <= self.end,
            self.start < self.end ==> self.end <= tape.ops@.len(),
        ensures
            n == self.end - self.start - if self.start < self.end && ends_block(
                tape.ops@[self.end - 1],
            ) {
                1int
            } else {
                0int
            },
    {
        if self.start < self.end && ends_with_terminator(&tape.ops[self.end - 1]) {
            self.end - self.start - 1
        } else {
            self.end - self.start
        }
    }

    /// Whether the block is empty.
    pub fn is_empty(&self) -> (b: bool)
        ensures
            b == (self.start == self.end),
    {
        self.start == self.end
    }
}

/// Whether `op` ends a basic block: a branch, jump, return or halt.
fn ends_with_terminator(op: &Op) -> (b: bool)
    ensures
        b == ends_block(*op),
{
    match op {
        Op::BranchNothing { .. } | Op::BranchTrue { .. } | Op::Jump { .. } | Op::Return { .. }
        | Op::Halt { .. } => true,
        _ => false,
    }
}

/// A control flow graph built from a [`Tape`].
#[derive(Debug)]
pub struct Cfg {
    pub entry: BlockId,
    pub blocks: Vec<BasicBlock>,
}

/// Whether `op` ends a basic block (a branch, jump, return or halt).
pub open spec fn ends_block(op: Op) -> bool {
    is_branch_or_jump(op) || op is Return || op is Halt
}

/// Whether some branch or jump among the first `k` operations targets `i`.
pub open spec fn targeted_before(ops: Seq<Op>, i: int, k: int) -> bool {
    exists|j: int|
        0 <= j < k && is_branch_or_jump(#[trigger] ops[j]) && branch_target(ops[j]) == i
}

/// Whether index `i` is marked as a block start after the first `k`
/// operations have been examined.
pub open spec fn leader_upto(ops: Seq<Op>, i: int, k: int) -> bool {
    ||| i == 0
    ||| targeted_before(ops, i, k)
    ||| (1 <= i <= k && ends_block(ops[i - 1]))
}

/// Whether index `i` starts a basic block: it is the first operation, the
/// target of a branch or jump, or it follows a branch, jump, return or halt.
pub open spec fn is_leader(ops: Seq<Op>, i: int) -> bool {
    0 <= i < ops.len() && leader_upto(ops, i, ops.len() as int)
}

/// The index of the block that holds operation `i`: the number of block
/// starts in `1..=i`.
pub open spec fn block_index(ops: Seq<Op>, i: int) -> nat
    decreases i,
{
    if i <= 0 {
        0
    } else {
        block_index(ops, i - 1) + if is_leader(ops, i) {
            1nat
        } else {
            0nat
        }
    }
}

/// The terminator of block `bid`, whose operations end before `end`.
pub open spec fn terminator_for(ops: Seq<Op>, bid: nat, end: int) -> Terminator {
    let next = if end < ops.len() {
        Some(BlockId(block_index(ops, end) as usize))
    } else {
        None
    };
    match ops[end - 1] {
        Op::Return { reg } => Terminator::Return { reg },
        Op::Halt { message } => Terminator::Halt { message },
        Op::Jump { target } => Terminator::Jump(BlockId(block_index(ops, target as int) as usize)),
        Op::BranchNothing { reg, target } => {
            let then_block = BlockId(block_index(ops, target as int) as usize);
            Terminator::BranchNothing {
                reg,
                then_block,
                else_block: match next {
                    Some(b) => b,
                    None => then_block,
                },
            }
        },
        Op::BranchTrue { reg, target } => {
            let then_block = BlockId(block_index(ops, target as int) as usize);
            Terminator::BranchTrue {
                reg,
                then_block,
                else_block: match next {
                    Some(b) => b,
                    None => then_block,
                },
            }
        },
        _ => match next {
            Some(_) => Terminator::Jump(BlockId((bid + 1) as usize)),
            None => Terminator::FallOff,
        },
    }
}

/// `blocks` is the block decomposition of the non-empty `ops`: block `k`
/// holds exactly the operations whose block index is `k`, and ends with the
/// terminator that its last operation calls for.
pub open spec fn is_block_decomposition(ops: Seq<Op>, blocks: Seq<BasicBlock>) -> bool {
    &&& blocks.len() == block_index(ops, ops.len() - 1) + 1
    &&& forall|k: int| 0 <= k < blocks.len() ==> block_fits(ops, #[trigger] blocks[k], k)
}

/// Block `b` is block number `k` of `ops`.
pub open spec fn block_fits(ops: Seq<Op>, b: BasicBlock, k: int) -> bool {
    &&& b.id == BlockId(k as usize)
    &&& b.start < b.end <= ops.len()
    &&& forall|i: int| b.start <= i < b.end ==> block_index(ops, i) == k
    &&& (b.start == 0 || block_index(ops, b.start - 1) < k)
    &&& (b.end == ops.len() || block_index(ops, b.end as int) > k)
    &&& b.terminator == terminator_for(ops, k as nat, b.end as int)
}

proof fn lemma_leader_upto_step(ops: Seq<Op>, i: int, k: int)
    requires
        0 <= k < ops.len(),
    ensures
        leader_upto(ops, i, k + 1) == (leader_upto(ops, i, k) || (is_branch_or_jump(ops[k])
            && branch_target(ops[k]) == i) || (i == k + 1 && ends_block(ops[k]))),
{
    if targeted_before(ops, i, k + 1) && !targeted_before(ops, i, k) {
        let j = choose|j: int|
            0 <= j < k + 1 && is_branch_or_jump(#[trigger] ops[j]) && branch_target(ops[j]) == i;
        assert(j == k);
    }
    if is_branch_or_jump(ops[k]) && branch_target(ops[k]) == i {
        assert(targeted_before(ops, i, k + 1));
    }
    if targeted_before(ops, i, k) {
        let j = choose|j: int|
            0 <= j < k && is_branch_or_jump(#[trigger] ops[j]) && branch_target(ops[j]) == i;
        assert(targeted_before(ops, i, k + 1));
    }
}

pub(crate) proof fn lemma_block_index_monotone(ops: Seq<Op>, i: int, j: int)
    requires
        i <= j,
    ensures
        block_index(ops, i) <= block_index(ops, j),
    decreases j - i,
{
    if i < j {
        lemma_block_index_monotone(ops, i, j - 1);
    }
}

pub(crate) proof fn lemma_block_index_bounded(ops: Seq<Op>, i: int)
    requires
        0 <= i,
    ensures
        block_index(ops, i) <= i,
    decreases i,
{
    if i > 0 {
        lemma_block_index_bounded(ops, i - 1);
    }
}

/// The blocks of a block decomposition partition the tape in order: the
/// first starts at 0, each next one starts where the one before ends, and the
/// last ends at the end of the tape.
pub proof fn lemma_blocks_partition_the_tape(ops: Seq<Op>, blocks: Seq<BasicBlock>)
    requires
        ops.len() > 0,
        is_block_decomposition(ops, blocks),
    ensures
        blocks[0].start == 0,
        blocks.last().end == ops.len(),
        forall|k: int| 0 <= k < blocks.len() - 1 ==> #[trigger] blocks[k].end == blocks[k + 1].start,
{
    let n = ops.len() as int;
    assert(block_fits(ops, blocks[0], 0));
    let last = blocks.len() - 1;
    assert(block_fits(ops, blocks[last], last));
    if blocks[last].end < n {
        lemma_block_index_monotone(ops, blocks[last].end as int, n - 1);
    }
    assert forall|k: int| 0 <= k < blocks.len() - 1 implies #[trigger] blocks[k].end == blocks[k
        + 1].start by {
        let b = blocks[k];
        let c = blocks[k + 1];
        assert(block_fits(ops, b, k));
        assert(block_fits(ops, c, k + 1));
        let e = b.end as int;
        let s = c.start as int;
        assert(block_index(ops, e - 1) == k);
        assert(block_index(ops, s) == k + 1);
        if e == n {
            lemma_block_index_monotone(ops, s, n - 1);
        }
        assert(block_index(ops, e) == k + 1);
        if s < e {
            lemma_block_index_monotone(ops, s, e - 1);
        } else if s > e {
            lemma_block_index_monotone(ops, e, s - 1);
        }
    }
}

impl Cfg {
    /// Build a CFG from a tape.
    ///
    /// An empty tape gives one empty block that falls off the end. Otherwise
    /// the blocks are the maximal runs of operations between block starts (see
    /// [`is_leader`]), numbered from 0 in tape order, block 0 being the entry.
    pub fn from_tape(tape: &Tape) -> (cfg: Self)
        requires
            targets_in_range(tape.ops@),
        ensures
            cfg.entry == BlockId(0),
            tape.ops@.len() == 0 ==> cfg.blocks@.len() == 1 && cfg.blocks@[0] == (BasicBlock {
                id: BlockId(0),
                start: 0,
                end: 0,
                terminator: Terminator::FallOff,
            }),
            tape.ops@.len() > 0 ==> is_block_decomposition(tape.ops@, cfg.blocks@),
    {
        let n = tape.ops.len();
        if n == 0 {
            let mut blocks: Vec<BasicBlock> = Vec::new();
            blocks.push(
                BasicBlock { id: BlockId(0), start: 0, end: 0, terminator: Terminator::FallOff },
            );
            return Self { entry: BlockId(0), blocks };
        }
        let ghost ops = tape.ops@;
        // Step 1: mark the block starts.
        let mut leader: Vec<bool> = vec![false; n];
        leader.set(0, true);
        let mut i: usize = 0;
        while i < n
            invariant
                n == ops.len(),
                ops == tape.ops@,
                i <= n,
                leader@.len() == n,
                forall|m: int| 0 <= m < n ==> #[trigger] leader@[m] == leader_upto(ops, m, i as int),
            decreases n - i,
        {
            proof {
                assert forall|m: int| 0 <= m < n implies leader_upto(ops, m, i + 1) == (leader_upto(
                    ops,
                    m,
                    i as int,
                ) || (is_branch_or_jump(ops[i as int]) && branch_target(ops[i as int]) == m) || (m
                    == i + 1 && ends_block(ops[i as int]))) by {
                    lemma_leader_upto_step(ops, m, i as int);
                }
            }
            match &tape.ops[i] {
                Op::BranchNothing { target, .. } | Op::BranchTrue { target, .. } | Op::Jump {
                    target,
                } => {
                    if *target < n {
                        leader.set(*target, true);
                    }
                    if i + 1 < n {
                        leader.set(i + 1, true);
                    }
                },
                Op::Return { .. } | Op::Halt { .. } => {
                    if i + 1 < n {
                        leader.set(i + 1, true);
                    }
                },
                _ => {},
            }
            i = i + 1;
        }
        // Step 2: map each operation to its block.
        let mut op_to_block: Vec<usize> = Vec::new();
        let mut block_id: usize = 0;
        let mut i: usize = 0;
        while i < n
            invariant
                n == ops.len(),
                ops == tape.ops@,
                i <= n,
                leader@.len() == n,
                forall|m: int| 0 <= m < n ==> #[trigger] leader@[m] == is_leader(ops, m),
                op_to_block@.len() == i,
                forall|m: int| 0 <= m < i ==> #[trigger] op_to_block@[m] == block_index(ops, m),
                i > 0 ==> block_id == block_index(ops, i - 1),
                i == 0 ==> block_id == 0,
            decreases n - i,
        {
            proof {
                lemma_block_index_bounded(ops, i as int);
            }
            if leader[i] && i > 0 {
                block_id = block_id + 1;
            }
            op_to_block.push(block_id);
            i = i + 1;
        }
        proof {
            lemma_block_index_bounded(ops, n - 1);
        }
        let num_blocks = block_id + 1;
        // Step 3: build the blocks.
        let mut blocks: Vec<BasicBlock> = Vec::new();
        let mut block_start: usize = 0;
        let mut bid: usize = 0;
        while bid < num_blocks
            invariant
                n == ops.len(),
                n > 0,
                ops == tape.ops@,
                targets_in_range(ops),
                op_to_block@.len() == n,
                forall|m: int| 0 <= m < n ==> #[trigger] op_to_block@[m] == block_index(ops, m),
                num_blocks == block_index(ops, n - 1) + 1,
                bid <= num_blocks,
                blocks@.len() == bid,
                forall|k: int| 0 <= k < bid ==> block_fits(ops, #[trigger] blocks@[k], k),
                bid < num_blocks ==> block_start < n && block_index(ops, block_start as int) == bid
                    && (block_start == 0 || block_index(ops, block_start - 1) < bid),
            decreases num_blocks - bid,
        {
            let mut block_end = block_start;
            while block_end < n && op_to_block[block_end] == bid
                invariant
                    n == ops.len(),
                    op_to_block@.len() == n,
                    forall|m: int| 0 <= m < n ==> #[trigger] op_to_block@[m] == block_index(ops, m),
                    block_start <= block_end <= n,
                    forall|m: int| block_start <= m < block_end ==> block_index(ops, m) == bid,
                decreases n - block_end,
            {
                block_end = block_end + 1;
            }
            proof {
                assert(block_index(ops, block_start as int) == bid);
                assert(block_end > block_start);
                assert(block_index(ops, block_end - 1) == bid);
                if block_end < n {
                    assert(block_index(ops, block_end as int) == block_index(ops, block_end - 1)
                        + if is_leader(ops, block_end as int) {
                        1nat
                    } else {
                        0nat
                    });
                    assert(block_index(ops, block_end as int) == bid + 1);
                } else {
                    assert(bid + 1 == num_blocks);
                }
            }
            let last_idx = block_end - 1;
            let next: Option<BlockId> = if block_end < n {
                Some(BlockId(op_to_block[block_end]))
            } else {
                None
            };
            let terminator = match &tape.ops[last_idx] {
                Op::Return { reg } => Terminator::Return { reg: *reg },
                Op::Halt { message } => Terminator::Halt { message: message.clone() },
                Op::Jump { target } => Terminator::Jump(BlockId(op_to_block[*target])),
                Op::BranchNothing { reg, target } => {
                    let then_block = BlockId(op_to_block[*target]);
                    let else_block = match next {
                        Some(b) => b,
                        None => then_block,
                    };
                    Terminator::BranchNothing { reg: *reg, then_block, else_block }
                },
                Op::BranchTrue { reg, target } => {
                    let then_block = BlockId(op_to_block[*target]);
                    let else_block = match next {
                        Some(b) => b,
                        None => then_block,
                    };
                    Terminator::BranchTrue { reg: *reg, then_block, else_block }
                },
                _ => {
                    if block_end < n {
                        Terminator::Jump(BlockId(bid + 1))
                    } else {
                        Terminator::FallOff
                    }
                },
            };
            let block = BasicBlock { id: BlockId(bid), start: block_start, end: block_end, terminator };
            proof {
                assert(block_fits(ops, block, bid as int));
            }
            blocks.push(block);
            block_start = block_end;
            bid = bid + 1;
        }
        Self { entry: BlockId(0), blocks }
    }
}

} // verus!
