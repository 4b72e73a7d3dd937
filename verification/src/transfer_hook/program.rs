//! The program's own entry points: the transfer counter and the amount check.
use crate::pubkey::Pubkey;
use vstd::prelude::*;

verus! {

/// The amount above which a transfer is refused.
pub const MAX_TRANSFER_AMOUNT: u64 = 100_000_000;

/// Errors of the program's entry points, numbered from 6000.
#[derive(PartialEq, Eq, Structural, Clone, Copy, Debug)]
pub enum MyError {
    /// The amount is too big
    AmountTooBig,
}

impl MyError {
    /// The error number that a failed instruction reports.
    pub fn code(&self) -> (r: u32)
        ensures
            r == 6000,
    {
        match self {
            MyError::AmountTooBig => 6000,
        }
    }

}

/// A counter of transfers.
pub struct CounterAccount {
    pub counter: u64,
}

/// Accounts of `hello_world`: none.
pub struct HelloWorld {}

/// Accounts of `initialize`: who pays, and the counter that is created.
pub struct InitializeCounter {
    pub payer: Pubkey,
    pub counter_account: CounterAccount,
}

/// Accounts of `execute`: the token accounts of a transfer, its mint and the source's owner.
pub struct Execute {
    pub source_token: Pubkey,
    pub mint: Pubkey,
    pub destination_token: Pubkey,
    pub owner: Pubkey,
}

/// Sets the transfer counter to zero.
pub fn initialize(ctx: &mut InitializeCounter) -> (r: Result<(), MyError>)
    ensures
        r is Ok,
        final(ctx).counter_account.counter == 0,
        final(ctx).payer == old(ctx).payer,
{
    ctx.counter_account.counter = 0;
    Ok(())
}

/// The check that the dispatcher runs: a transfer of more than the limit is refused.
pub fn execute(_ctx: &Execute, amount: u64) -> (r: Result<(), MyError>)
    ensures
        r is Ok <==> amount <= MAX_TRANSFER_AMOUNT,
        r is Err ==> r == Err::<(), MyError>(MyError::AmountTooBig),
{
    if amount > MAX_TRANSFER_AMOUNT {
        return Err(MyError::AmountTooBig);
    }
    Ok(())
}

/// Always succeeds; the greeting it logs is not part of the result.
pub fn hello_world(_ctx: &HelloWorld) -> (r: Result<(), MyError>)
    ensures
        r is Ok,
{
    Ok(())
}

} // verus!
