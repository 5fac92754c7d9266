//! AVM Core: the Anoma Virtual Machine, an object-centric, message-passing,
//! transactional virtual machine.
//!
//! The crate is organized into layers:
//!
//! - [`types`]: runtime values, identifiers, metadata
//! - [`instruction`]: the layered instruction set
//! - [`error`]: the compositional error hierarchy
//! - [`trace`]: observability and event logging
//! - [`store`]: persistent object storage
//! - [`vm`]: VM state
//! - [`interpreter`]: the instruction handlers and the transaction engine
//! - [`tape`]: a flat register-based program form, its builder, its step
//!   function and its control flow graph
//! - [`transport`]: routing of calls to remote machines
//! - [`text`]: decimal rendering used by the display functions
pub mod error;
pub mod instruction;
pub mod interpreter;
pub mod store;
pub mod tape;
pub mod text;
pub mod trace;
pub mod transport;
pub mod types;
pub mod vm;
