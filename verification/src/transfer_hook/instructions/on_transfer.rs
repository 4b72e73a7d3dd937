//! The check that runs on every transfer of the token.
use crate::pubkey::{contains_key, Pubkey};
use crate::transfer_hook::errors::ErrorCode;
use crate::transfer_hook::states::Whitelist;
use vstd::prelude::*;

verus! {

/// Accounts of a transfer: the token accounts, the mint, the source's owner,
/// the extra-account list and the whitelist.
pub struct OnTransfer {
    pub source_token: Pubkey,
    pub mint: Pubkey,
    pub destination_token: Pubkey,
    pub owner: Pubkey,
    pub extra_account_meta_list: Pubkey,
    pub whitelist: Whitelist,
}

/// A transfer is let through exactly when its destination account is whitelisted.
pub fn handler(ctx: &OnTransfer, _amount: u64) -> (r: Result<(), ErrorCode>)
    ensures
        r is Ok <==> ctx.whitelist.addresses@.contains(ctx.destination_token),
        r is Err ==> r == Err::<(), ErrorCode>(ErrorCode::RecipientNotWhitelisted),
{
    let to = ctx.destination_token;
    let is_whitelisted = contains_key(&ctx.whitelist.addresses, &to);
    if !is_whitelisted {
        return Err(ErrorCode::RecipientNotWhitelisted);
    }
    Ok(())
}

} // verus!
