//! The tracing core of the classic agent: contexts and spans with numeric
//! span ids, tags and log events, and the `sw6` segment reference.

pub mod context;
pub mod context_carrier;
pub mod context_listener;
pub mod context_manager;
pub mod id;
pub mod log;
pub mod segment_ref;
pub mod span;
pub mod tag;
