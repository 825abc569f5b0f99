//! Logging: records, and the logger that reports them.

pub mod logger;
pub mod record;
