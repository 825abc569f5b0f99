//! Tracing: contexts, spans, the tracer that reports finished contexts, and
//! the propagation of a context across processes.

pub mod propagation;
pub mod span;
pub mod trace_context;
pub mod tracer;
