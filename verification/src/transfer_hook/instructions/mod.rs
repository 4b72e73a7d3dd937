//! The instructions that read or change the whitelist.
pub mod add_whitelist_address;
pub mod on_transfer;
pub mod remove_whitelist_address;
pub mod update_whitelist_addresses;
