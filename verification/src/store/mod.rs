//! Persistent storage for AVM objects, metadata, and state.
//!
//! The store holds the three maps that define the runtime state of all
//! objects. Each map is a `rustc_hash::FxHashMap` keyed by the object id's
//! number.
pub mod fx;
mod meta_store;
pub mod named;
mod object_store;
mod state_store;
mod store;

pub use meta_store::MetaStore;
pub use object_store::{lists_entries, ObjectBehavior, ObjectStore};
pub use state_store::StateStore;
pub use store::{Store, StoreView};
