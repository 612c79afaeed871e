//! Shader loading, change detection and user-data bookkeeping for the COSMIC greeter.

pub mod shader;
pub mod user;
