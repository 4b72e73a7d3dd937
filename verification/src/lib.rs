//! Verified logic of two token-transfer-hook programs: a whitelist hook and a
//! dispatcher that fans a transfer out to registered hook programs.
pub mod runtime;
pub mod le_bytes;
pub mod pubkey;
pub mod transfer_hook;
pub mod transfer_hook_dispatcher;
