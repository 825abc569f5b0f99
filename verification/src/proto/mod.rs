//! Messages of the SkyWalking data collect protocol.

pub mod v3;
