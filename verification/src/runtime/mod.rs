//! Calls into the runtime's libraries, with the contracts the library relies on.
pub mod account_resolution;
pub mod hashing;
pub mod hook_interface;
pub mod token_account;
