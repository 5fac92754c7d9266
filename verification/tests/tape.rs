use avm_core::error::{AVMError, BaseError, ObjError, PureLayerError, TxLayerError};
use avm_core::instruction;
use avm_core::tape::cfg::{BasicBlock, BlockId, Cfg, Terminator};
use avm_core::tape::step::{registers, step, TapeStep};
use avm_core::tape::{Op, Tape, TapeBuilder, MAX_REGS};
use avm_core::types::Val;

/// Runs a tape from its first operation until it finishes.
fn run(tape: &Tape) -> Result<Val, AVMError> {
    let mut regs = registers();
    let mut pc: usize = 0;
    loop {
        match step(&tape.ops, &mut regs, &mut pc) {
            TapeStep::Next => {}
            TapeStep::Done(r) => return r,
        }
    }
}

#[test]
fn builder_basic() {
    let mut b = TapeBuilder::new();
    let r0 = b.load_const(Val::Nat(42));
    b.ret(r0);
    let tape = b.build();
    assert_eq!(tape.len(), 2);
    assert_eq!(tape.register_count, 1);
}

#[test]
fn builder_branch_and_patch() {
    let mut b = TapeBuilder::new();
    let r0 = b.load_const(Val::Nothing);
    let br = b.branch_nothing(r0);
    let r1 = b.load_const(Val::Nat(1));
    b.ret(r1);
    b.patch(br);
    let r2 = b.load_const(Val::Nat(2));
    b.ret(r2);
    let tape = b.build();
    assert_eq!(tape.len(), 6);
    assert!(matches!(tape.ops[1], Op::BranchNothing { target: 4, .. }));
}

#[test]
fn builder_effect() {
    let mut b = TapeBuilder::new();
    let r = b.effect(instruction::get_self());
    b.ret(r);
    let tape = b.build();
    assert_eq!(tape.len(), 2);
    assert!(matches!(tape.ops[0], Op::Effect { result: 0, .. }));
}

#[test]
fn builder_positions_and_halt() {
    let mut b = TapeBuilder::default();
    assert_eq!(b.pos(), 0);
    let r0 = b.alloc_reg();
    let r1 = b.mov(r0);
    let r2 = b.make_list(r0, 2);
    let r3 = b.unwrap_just(r2);
    assert_eq!((r0, r1, r2, r3), (0, 1, 2, 3));
    let bt = b.branch_true(r3);
    let j = b.jump();
    assert_eq!((bt, j), (3, 4));
    b.patch(bt);
    b.halt("stop");
    assert_eq!(b.pos(), 6);
    let tape = b.build();
    assert_eq!(tape.register_count, 4);
    assert!(matches!(tape.ops[3], Op::BranchTrue { reg: 3, target: 5 }));
    assert!(matches!(tape.ops[4], Op::Jump { target: 0 }));
    assert!(matches!(&tape.ops[5], Op::Halt { message } if message == "stop"));
    assert!(!tape.is_empty());
}

#[test]
fn cfg_linear_tape() {
    let mut b = TapeBuilder::new();
    let _r0 = b.load_const(Val::Nat(1));
    let r1 = b.load_const(Val::Nat(2));
    b.ret(r1);
    let tape = b.build();
    let cfg = Cfg::from_tape(&tape);
    assert_eq!(cfg.blocks.len(), 1);
    assert!(matches!(cfg.blocks[0].terminator, Terminator::Return { reg: 1 }));
}

#[test]
fn cfg_with_branch() {
    let mut b = TapeBuilder::new();
    let r0 = b.load_const(Val::Nothing);
    let br = b.branch_nothing(r0);
    let r1 = b.load_const(Val::Nat(1));
    b.ret(r1);
    b.patch(br);
    let r2 = b.load_const(Val::Nat(2));
    b.ret(r2);
    let tape = b.build();
    let cfg = Cfg::from_tape(&tape);
    assert_eq!(cfg.blocks.len(), 3);
    assert!(matches!(cfg.blocks[0].terminator, Terminator::BranchNothing { .. }));
}

#[test]
fn cfg_mermaid_output() {
    let mut b = TapeBuilder::new();
    let _r0 = b.effect(instruction::begin_tx(None));
    let r1 = b.effect(instruction::create_obj("ping", None));
    b.ret(r1);
    let tape = b.build();
    let cfg = Cfg::from_tape(&tape);
    let mermaid = cfg.to_mermaid(&tape);
    assert!(mermaid.contains("graph TD"));
    assert!(mermaid.contains("begin_tx"));
    assert!(mermaid.contains("create_obj"));
    assert!(mermaid.contains("return"));
}

#[test]
fn cfg_with_jump() {
    let mut b = TapeBuilder::new();
    let jmp = b.jump();
    let r0 = b.load_const(Val::Nat(999));
    b.ret(r0);
    b.patch(jmp);
    let r1 = b.load_const(Val::Nat(42));
    b.ret(r1);
    let tape = b.build();
    let cfg = Cfg::from_tape(&tape);
    assert_eq!(cfg.blocks.len(), 3);
    assert!(matches!(cfg.blocks[0].terminator, Terminator::Jump(_)));
}

#[test]
fn empty_tape_cfg() {
    let tape = Tape { ops: vec![], register_count: 0 };
    let cfg = Cfg::from_tape(&tape);
    assert_eq!(cfg.blocks.len(), 1);
    assert!(matches!(cfg.blocks[0].terminator, Terminator::FallOff));
}

#[test]
fn cfg_blocks_of_a_branching_tape() {
    let mut b = TapeBuilder::new();
    let r0 = b.load_const(Val::Nothing);
    let br = b.branch_nothing(r0);
    let r1 = b.load_const(Val::Nat(1));
    b.ret(r1);
    b.patch(br);
    let r2 = b.load_const(Val::Nat(2));
    b.ret(r2);
    let tape = b.build();
    let cfg = Cfg::from_tape(&tape);
    assert_eq!(cfg.entry, BlockId(0));
    let spans: Vec<(usize, usize)> = cfg.blocks.iter().map(|bl| (bl.start, bl.end)).collect();
    assert_eq!(spans, vec![(0, 2), (2, 4), (4, 6)]);
    assert!(matches!(
        cfg.blocks[0].terminator,
        Terminator::BranchNothing { reg: 0, then_block: BlockId(2), else_block: BlockId(1) }
    ));
    assert!(matches!(cfg.blocks[1].terminator, Terminator::Return { reg: 1 }));
    assert!(matches!(cfg.blocks[2].terminator, Terminator::Return { reg: 2 }));
    // Block 1 holds a load and a return: one operation besides its
    // terminator instruction.
    assert_eq!(cfg.blocks[1].len(&tape), 1);
    assert!(!cfg.blocks[1].is_empty());
}

#[test]
fn block_len_excludes_the_terminator_instruction() {
    let mut b = TapeBuilder::new();
    let _r0 = b.load_const(Val::Nat(1));
    let r1 = b.load_const(Val::Nat(2));
    b.ret(r1);
    let tape = b.build();
    let cfg = Cfg::from_tape(&tape);
    assert_eq!(cfg.blocks[0].len(&tape), 2);

    // A block that falls through into a jump target has no terminator
    // instruction.
    let mut b = TapeBuilder::new();
    let r0 = b.load_const(Val::Nothing);
    let br = b.branch_nothing(r0);
    let _ = b.load_const(Val::Nat(1));
    b.patch(br);
    b.halt("end");
    let tape = b.build();
    let cfg = Cfg::from_tape(&tape);
    assert_eq!(cfg.blocks.len(), 3);
    assert_eq!(cfg.blocks[0].len(&tape), 1);
    assert_eq!(cfg.blocks[1].len(&tape), 1);
    assert!(matches!(cfg.blocks[1].terminator, Terminator::Jump(BlockId(2))));
    assert_eq!(cfg.blocks[2].len(&tape), 0);

    let empty = Tape { ops: vec![], register_count: 0 };
    let cfg = Cfg::from_tape(&empty);
    assert_eq!(cfg.blocks[0].len(&empty), 0);
}

#[test]
fn cfg_falls_through_into_a_jump_target() {
    let mut b = TapeBuilder::new();
    let r0 = b.load_const(Val::Nat(1));
    let j = b.jump();
    b.patch(j);
    b.halt("done");
    let _ = r0;
    let tape = b.build();
    let cfg = Cfg::from_tape(&tape);
    assert_eq!(cfg.blocks.len(), 2);
    assert!(matches!(cfg.blocks[0].terminator, Terminator::Jump(BlockId(1))));
    assert!(matches!(&cfg.blocks[1].terminator, Terminator::Halt { message } if message == "done"));
}

#[test]
fn mermaid_exact_text() {
    let mut b = TapeBuilder::new();
    let r0 = b.load_const(Val::Bool(true));
    let br = b.branch_true(r0);
    let r1 = b.load_const(Val::Nat(1));
    b.ret(r1);
    b.patch(br);
    b.halt("no");
    let tape = b.build();
    let cfg = Cfg::from_tape(&tape);
    let expected = "graph TD\n    B0[\"r0 = true\\nif r0 = true\"]\n    B0 -->|r0 = true| B2\n    B0 -->|r0 \u{2260} true| B1\n    B1[\"r1 = 1\\nreturn r1\"]\n    B1 -->|return r1| END([End])\n    B2[\"halt\"]\n    B2 --> END([End])\n";
    assert_eq!(cfg.to_mermaid(&tape), expected);
}

#[test]
fn mermaid_of_empty_tape_and_block_ids() {
    let tape = Tape { ops: vec![], register_count: 0 };
    let cfg = Cfg::from_tape(&tape);
    assert_eq!(cfg.to_mermaid(&tape), "graph TD\n    B0[\"(empty)\"]\n    B0 --> END([End])\n");
    assert_eq!(BlockId(12).display_string(), "B12");
    let block = BasicBlock { id: BlockId(0), start: 3, end: 3, terminator: Terminator::FallOff };
    assert!(block.is_empty());
}

#[test]
fn mermaid_labels_each_operation() {
    let mut b = TapeBuilder::new();
    let r0 = b.effect(instruction::get_state());
    let r1 = b.mov(r0);
    let r2 = b.make_list(r0, 2);
    let _r3 = b.unwrap_just(r1);
    let _ = r2;
    let j = b.jump();
    b.patch(j);
    b.halt("end");
    let tape = b.build();
    let cfg = Cfg::from_tape(&tape);
    let m = cfg.to_mermaid(&tape);
    assert!(m.contains("r0 = get_state\\nr1 = r0\\nr2 = list(r0..+2)\\nr3 = unwrap(r1)\\njump"));
    assert!(m.contains("    B0 --> B1\n"));
    assert!(m.contains("    B1[\"halt\"]\n    B1 --> END([End])\n"));
}

#[test]
fn interpret_load_and_return() {
    let mut b = TapeBuilder::new();
    let r = b.load_const(Val::Nat(42));
    b.ret(r);
    let tape = b.build();
    let result = run(&tape).unwrap();
    assert_eq!(result, Val::Nat(42));
}

#[test]
fn interpret_branch_nothing_taken() {
    let mut b = TapeBuilder::new();
    let r0 = b.load_const(Val::Nothing);
    let br = b.branch_nothing(r0);
    let r1 = b.load_const(Val::Nat(1));
    b.ret(r1);
    b.patch(br);
    let r2 = b.load_const(Val::Nat(2));
    b.ret(r2);
    let tape = b.build();
    let result = run(&tape).unwrap();
    assert_eq!(result, Val::Nat(2));
}

#[test]
fn interpret_branch_nothing_not_taken() {
    let mut b = TapeBuilder::new();
    let r0 = b.load_const(Val::Nat(99));
    let br = b.branch_nothing(r0);
    let r1 = b.load_const(Val::Nat(1));
    b.ret(r1);
    b.patch(br);
    let r2 = b.load_const(Val::Nat(2));
    b.ret(r2);
    let tape = b.build();
    let result = run(&tape).unwrap();
    assert_eq!(result, Val::Nat(1));
}

#[test]
fn interpret_make_list() {
    let mut b = TapeBuilder::new();
    let r0 = b.load_const(Val::Nat(1));
    let _r1 = b.load_const(Val::Nat(2));
    let _r2 = b.load_const(Val::Nat(3));
    let rlist = b.make_list(r0, 3);
    b.ret(rlist);
    let tape = b.build();
    let result = run(&tape).unwrap();
    assert_eq!(result, Val::List(vec![Val::Nat(1), Val::Nat(2), Val::Nat(3)]));
}

#[test]
fn interpret_unwrap_just() {
    let mut b = TapeBuilder::new();
    let r0 = b.load_const(Val::just(Val::Nat(7)));
    let r1 = b.unwrap_just(r0);
    b.ret(r1);
    let tape = b.build();
    let result = run(&tape).unwrap();
    assert_eq!(result, Val::Nat(7));
}

#[test]
fn interpret_move_register() {
    let mut b = TapeBuilder::new();
    let r0 = b.load_const(Val::str("hello"));
    let r1 = b.mov(r0);
    b.ret(r1);
    let tape = b.build();
    let result = run(&tape).unwrap();
    assert_eq!(result, Val::str("hello"));
}

#[test]
fn interpret_jump() {
    let mut b = TapeBuilder::new();
    let jmp = b.jump();
    let r_skip = b.load_const(Val::Nat(999));
    b.ret(r_skip);
    b.patch(jmp);
    let r_ok = b.load_const(Val::Nat(42));
    b.ret(r_ok);
    let tape = b.build();
    let result = run(&tape).unwrap();
    assert_eq!(result, Val::Nat(42));
}

#[test]
fn step_halt_carries_its_message() {
    let mut b = TapeBuilder::new();
    b.halt("boom");
    let tape = b.build();
    let err = run(&tape).unwrap_err();
    assert!(matches!(
        &err,
        AVMError::PureLayer(PureLayerError::TxLayer(TxLayerError::Base(BaseError::Obj(
            ObjError::Halted(message)
        )))) if message == "boom"
    ));
    assert!(err.display_string().contains("boom"));
    assert_eq!(err.display_string(), "program halted: boom");
}

#[test]
fn step_past_the_end_gives_nothing_and_keeps_state() {
    let tape = Tape { ops: vec![], register_count: 0 };
    let mut regs = registers();
    assert_eq!(regs.len(), MAX_REGS);
    let mut pc: usize = 7;
    match step(&tape.ops, &mut regs, &mut pc) {
        TapeStep::Done(Ok(v)) => assert_eq!(v, Val::Nothing),
        other => panic!("unexpected {:?}", other),
    }
    assert_eq!(pc, 7);
    assert!(regs.iter().all(|v| *v == Val::Nothing));
}

#[test]
fn step_effect_is_skipped_and_branch_true_follows_booleans() {
    let mut b = TapeBuilder::new();
    let r0 = b.effect(instruction::get_self());
    let br = b.branch_nothing(r0);
    let c = b.load_const(Val::Bool(true));
    let bt = b.branch_true(c);
    let r_no = b.load_const(Val::Nat(0));
    b.ret(r_no);
    b.patch(bt);
    let r_yes = b.load_const(Val::Nat(1));
    b.ret(r_yes);
    b.patch(br);
    let r_skipped = b.load_const(Val::Nat(2));
    b.ret(r_skipped);
    let tape = b.build();
    // The effect leaves register 0 as Nothing, so the first branch is taken.
    assert_eq!(run(&tape).unwrap(), Val::Nat(2));

    let mut regs = registers();
    let mut pc: usize = 0;
    assert!(matches!(step(&tape.ops, &mut regs, &mut pc), TapeStep::Next));
    assert_eq!(pc, 1);
    assert_eq!(regs[0], Val::Nothing);
}

#[test]
fn step_unwrap_leaves_non_just_values() {
    let mut b = TapeBuilder::new();
    let r0 = b.load_const(Val::Nat(5));
    let r1 = b.unwrap_just(r0);
    b.ret(r1);
    let tape = b.build();
    assert_eq!(run(&tape).unwrap(), Val::Nat(5));
}

#[test]
fn registers_are_handed_out_in_order() {
    let mut b = TapeBuilder::new();
    for k in 0..255u16 {
        assert!(b.can_alloc_reg());
        let r = if k % 3 == 0 { b.alloc_reg() } else { b.load_const(Val::Nat(u64::from(k))) };
        assert_eq!(u16::from(r), k);
        b.jump();
    }
    assert!(!b.can_alloc_reg());
    assert_eq!(b.build().register_count, 255);
}
