//! The AVM instruction set architecture.
//!
//! Instructions are organized into composable layers:
//!
//! - **Layer 0**: Objects, introspection, reflection, reification
//! - **Layer 1**: Transactions
//! - **Layer 2**: Pure functions
//! - **Layer 3**: Machine and controller distribution
//! - **Layer 4**: Finite-domain constraints and nondeterminism
pub mod controller;
pub mod fd;
pub mod introspect;
pub mod machine;
pub mod nondet;
pub mod obj;
pub mod pure_fn;
pub mod reflect;
pub mod reify;
pub mod isa;
pub mod tx;

pub use controller::ControllerInstruction;
pub use fd::FdInstruction;
pub use introspect::IntrospectInstruction;
pub use machine::MachineInstruction;
pub use nondet::NondetInstruction;
pub use obj::ObjInstruction;
pub use pure_fn::PureInstruction;
pub use reflect::ReflectInstruction;
pub use reify::ReifyInstruction;
pub use isa::{
    abort_tx, begin_tx, call, call_pure, commit_tx, create_obj, destroy_obj, get_current_machine,
    get_input, get_self, get_sender, get_state, receive, set_state, Instruction,
};
pub use tx::TxInstruction;
