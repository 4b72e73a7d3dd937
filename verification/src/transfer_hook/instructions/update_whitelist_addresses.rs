//! Replacing the whole whitelist.
use crate::pubkey::{no_duplicates, Pubkey};
use crate::transfer_hook::errors::ErrorCode;
use crate::transfer_hook::states::{Whitelist, MAX_WHITELIST_ADDRESSES};
use vstd::prelude::*;

verus! {

/// Accounts of the instruction: the whitelist and its authority, who signs.
pub struct UpdateWhitelistAddresses {
    pub whitelist: Whitelist,
    pub authority: Pubkey,
}

/// Whether some address occurs twice in `v`.
pub fn has_duplicates(v: &Vec<Pubkey>) -> (r: bool)
    ensures
        r == !no_duplicates(v@),
{
    let mut i: usize = 0;
    while i < v.len()
        invariant
            0 <= i <= v.len(),
            forall|a: int, b: int| 0 <= a < b < v.len() && a < i ==> v@[a] != v@[b],
        decreases v.len() - i,
    {
        let mut j: usize = i + 1;
        while j < v.len()
            invariant
                i < v.len(),
                i + 1 <= j <= v.len(),
                forall|a: int, b: int| 0 <= a < b < v.len() && a < i ==> v@[a] != v@[b],
                forall|b: int| i < b < j ==> v@[i as int] != v@[b],
            decreases v.len() - j,
        {
            if v[i].key_eq(&v[j]) {
                return true;
            }
            j = j + 1;
        }
        i = i + 1;
    }
    false
}

/// The list after the update to `new`, and the instruction's outcome.
pub open spec fn update_whitelist_addresses_step(s: Seq<Pubkey>, new: Seq<Pubkey>) -> (Seq<Pubkey>, Result<(), ErrorCode>) {
    if !no_duplicates(new) {
        (s, Err(ErrorCode::DuplicateAddressInWhitelist))
    } else if new.len() > MAX_WHITELIST_ADDRESSES {
        (s, Err(ErrorCode::AccountDidNotSerialize))
    } else {
        (new, Ok(()))
    }
}

/// Replaces the whitelist by `new_addresses`, unless an address occurs twice in
/// it or it is longer than the account has room for.
pub fn handler(ctx: &mut UpdateWhitelistAddresses, new_addresses: Vec<Pubkey>) -> (r: Result<(), ErrorCode>)
    ensures
        (final(ctx).whitelist.addresses@, r) == update_whitelist_addresses_step(old(ctx).whitelist.addresses@, new_addresses@),
        final(ctx).whitelist.authority == old(ctx).whitelist.authority,
        final(ctx).authority == old(ctx).authority,
        r is Ok ==> final(ctx).whitelist.wf(),
        old(ctx).whitelist.wf() ==> final(ctx).whitelist.wf(),
{
    if has_duplicates(&new_addresses) {
        return Err(ErrorCode::DuplicateAddressInWhitelist);
    }
    if new_addresses.len() > MAX_WHITELIST_ADDRESSES {
        return Err(ErrorCode::AccountDidNotSerialize);
    }
    ctx.whitelist.addresses = new_addresses;
    Ok(())
}

} // verus!
