//! Tape IR: a flat program representation.
//!
//! A [`Tape`] stores instructions as a contiguous `Vec<Op>` with a register
//! file. Tapes are built with the [`TapeBuilder`], executed one operation at a
//! time by [`step::step`], analysed by [`cfg::Cfg`] and drawn by
//! [`cfg::Cfg::to_mermaid`].
pub mod cfg;
pub mod mermaid;
pub mod program;
pub mod laws;
pub mod step;

pub use program::{
    branch_target, is_branch_or_jump, targets_in_range, Op, Reg, Tape, TapeBuilder, MAX_REGS,
};
