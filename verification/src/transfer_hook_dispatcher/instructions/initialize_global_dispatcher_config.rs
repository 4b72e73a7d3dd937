//! Creating the global whitelist of hook programs.
use crate::pubkey::Pubkey;
use crate::transfer_hook_dispatcher::states::GlobalDispatcherConfigAccount;
use vstd::prelude::*;

verus! {

/// The seed (its UTF-8 bytes) of the global whitelist's program-derived address.
pub const GLOBAL_DISPATCHER_SEED: &'static str = "global-dispatcher-config";

/// The space of the global whitelist's account: discriminator, room for twenty
/// hook programs with the list's length prefix, and the authority.
pub const GLOBAL_DISPATCHER_CONFIG_SPACE: usize = 8 + (4 + 32 * 20) + 32;

/// Accounts of the instruction: who pays, and the whitelist that is created.
pub struct InitializeGlobalDispatcherConfigCtx {
    pub payer: Pubkey,
    pub global_dispatcher_config: GlobalDispatcherConfigAccount,
}

/// Starts an empty whitelist managed by `authority`.
pub fn handler(ctx: &mut InitializeGlobalDispatcherConfigCtx, authority: Pubkey) -> (r: Result<(), crate::transfer_hook_dispatcher::errors::ErrorCode>)
    ensures
        r is Ok,
        final(ctx).global_dispatcher_config.allowed_hook_programs@ == Seq::<Pubkey>::empty(),
        final(ctx).global_dispatcher_config.authority == authority,
        final(ctx).global_dispatcher_config.wf(),
        final(ctx).payer == old(ctx).payer,
{
    ctx.global_dispatcher_config.allowed_hook_programs = Vec::new();
    ctx.global_dispatcher_config.authority = authority;
    Ok(())
}

} // verus!
