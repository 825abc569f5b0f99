//! Instance management: the properties of a service instance, and the
//! manager that reports them and keeps the instance alive.

pub mod instance;
pub mod manager;
