//! The whitelist account.
use crate::pubkey::{no_duplicates, Pubkey};
use vstd::prelude::*;

verus! {

/// The most addresses that a whitelist account has room for.
pub const MAX_WHITELIST_ADDRESSES: usize = 100;

/// The list of addresses that may receive the token, and who manages it.
pub struct Whitelist {
    pub authority: Pubkey,
    pub addresses: Vec<Pubkey>,
}

impl Whitelist {
    /// Space for the authority, the list's length prefix and up to 100 addresses.
    pub const MAX_SIZE: usize = 32 + (32 * 100) + 4;

    /// No address is listed twice, and the account has room for the list.
    pub open spec fn wf(&self) -> bool {
        &&& no_duplicates(self.addresses@)
        &&& self.addresses@.len() <= MAX_WHITELIST_ADDRESSES
    }
}

} // verus!
