//! The whitelist transfer hook: a transfer goes through only to a whitelisted recipient.
pub mod errors;
pub mod instructions;
pub mod laws;
pub mod program;
pub mod states;
