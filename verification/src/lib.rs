//! SkyWalking agent: tracing contexts and spans, the `sw8` propagation
//! header, log records, instance properties and reporting of collected items.

pub mod common;
pub mod context;
pub mod logging;
pub mod management;
pub mod metrics;
pub mod proto;
pub mod reporter;
pub mod trace;
pub mod tracing_core;
