//! Adding an address to the whitelist.
use crate::pubkey::{contains_key, Pubkey};
use crate::transfer_hook::errors::ErrorCode;
use crate::transfer_hook::states::{Whitelist, MAX_WHITELIST_ADDRESSES};
use vstd::prelude::*;

verus! {

/// Accounts of the instruction: the whitelist and its authority, who signs.
pub struct AddWhitelistAddress {
    pub whitelist: Whitelist,
    pub authority: Pubkey,
}

/// The list after adding `a` to `s`, and the instruction's outcome.
pub open spec fn add_whitelist_address_step(s: Seq<Pubkey>, a: Pubkey) -> (Seq<Pubkey>, Result<(), ErrorCode>) {
    if s.contains(a) {
        (s, Err(ErrorCode::AddressAlreadyWhitelisted))
    } else if s.len() >= MAX_WHITELIST_ADDRESSES {
        (s, Err(ErrorCode::AccountDidNotSerialize))
    } else {
        (s.push(a), Ok(()))
    }
}

/// Appends `new_address` to the whitelist unless it is already there, or the
/// whitelist is full.
pub fn handler(ctx: &mut AddWhitelistAddress, new_address: Pubkey) -> (r: Result<(), ErrorCode>)
    ensures
        (final(ctx).whitelist.addresses@, r) == add_whitelist_address_step(old(ctx).whitelist.addresses@, new_address),
        final(ctx).whitelist.authority == old(ctx).whitelist.authority,
        final(ctx).authority == old(ctx).authority,
        old(ctx).whitelist.wf() ==> final(ctx).whitelist.wf(),
{
    if contains_key(&ctx.whitelist.addresses, &new_address) {
        return Err(ErrorCode::AddressAlreadyWhitelisted);
    }
    if ctx.whitelist.addresses.len() >= MAX_WHITELIST_ADDRESSES {
        return Err(ErrorCode::AccountDidNotSerialize);
    }
    ctx.whitelist.addresses.push(new_address);
    Ok(())
}

} // verus!
