//! The `sw8` propagation context and its decoder, as the `context` API names
//! them.

pub use crate::trace::propagation::context;
pub use crate::trace::propagation::decoder;
