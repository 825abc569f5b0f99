//! Helpers shared by the modules of the agent.

pub mod base64_codec;
pub mod random_generator;
pub mod strings;
pub mod system_time;
pub mod text;
