//! The transfer-hook dispatcher: on each transfer of a mint it invokes the hook
//! programs registered for it, which must be on a program-wide whitelist.
pub mod errors;
pub mod instructions;
pub mod laws;
pub mod program;
pub mod states;
