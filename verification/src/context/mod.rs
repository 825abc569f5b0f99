//! The `context` API: a tracing context whose spans are addressed by their
//! place in its active stack, and a context manager that hands each finished
//! context, as a segment, to a notify function.

pub mod context_manager;
pub mod propagation;
pub mod span;
pub mod trace_context;
