//! Reading a token account's transfer-hook flag, from the token program's library.
use anchor_spl::token_2022::spl_token_2022::extension::transfer_hook::TransferHookAccount;
use anchor_spl::token_2022::spl_token_2022::extension::{BaseStateWithExtensions, PodStateWithExtensions};
use anchor_spl::token_2022::spl_token_2022::pod::PodAccount;
use vstd::prelude::*;

verus! {

/// What the token program's library reads from the account data `data`: the
/// `transferring` flag of its transfer-hook extension, or the error number of
/// why it could not (not an initialized token account, no such extension).
pub uninterp spec fn token_account_transferring(data: Seq<u8>) -> Result<bool, u64>;

/// Calls `PodStateWithExtensions::<PodAccount>::unpack` on `data` and then
/// `get_extension::<TransferHookAccount>` on the result, and keeps the
/// extension's `transferring` flag or the error's number. The contract claims
/// only that the result depends on the data alone; the account layout that
/// decides it is left to the name.
#[verifier::external_body]
pub(crate) fn read_transferring_flag(data: &[u8]) -> (r: Result<bool, u64>)
    ensures
        r == token_account_transferring(data@),
{
    let account = match PodStateWithExtensions::<PodAccount>::unpack(data) {
        Ok(account) => account,
        Err(e) => return Err(u64::from(e)),
    };
    match account.get_extension::<TransferHookAccount>() {
        Ok(extension) => Ok(bool::from(extension.transferring)),
        Err(e) => Err(u64::from(e)),
    }
}

} // verus!
