//! The AVM interpreter: instruction handlers and the transaction engine.
//!
//! Each instruction family has a handler that updates the [`State`] and
//! reports the response value and at most one log entry. The handlers that
//! need outside work (running a callee's program, evaluating a pure function)
//! are split: a verified function prepares the work and a verified function
//! takes its result, and the caller (which walks the program) does the work in
//! between; see [`dispatch`].
pub mod controller;
pub mod dispatch;
pub mod fd;
pub mod helpers;
pub mod introspect;
pub mod laws;
pub mod machine;
pub mod nondet;
pub mod obj;
pub mod pure_fn;
pub mod reflect;
pub mod reify;
pub mod tx;


pub use dispatch::{dispatch, AVMResult, HandlerResult, Step, Success};
