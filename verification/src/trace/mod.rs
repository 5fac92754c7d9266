//! Observability and event logging.
//!
//! Every state-modifying instruction emits a [`LogEntry`] into the execution
//! [`Trace`], which gives an audit trail for debugging and testing.
mod event;
mod text;

pub use event::{count_events, count_true, EventType, LogEntry, Trace};
pub use text::event_text;
