//! Propagation of a tracing context across processes, in the `sw8` header.

pub mod context;
pub mod decoder;
pub mod encoder;
