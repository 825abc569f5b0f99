//! Metrics: meters, meter records, and the metricer that samples its meters
//! and reports the samples.

pub mod meter;
pub mod metricer;
pub mod record;
