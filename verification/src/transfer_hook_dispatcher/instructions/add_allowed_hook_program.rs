//! Adding a hook program to the global whitelist.
use crate::pubkey::{contains_key, Pubkey};
use crate::transfer_hook_dispatcher::errors::ErrorCode;
use crate::transfer_hook_dispatcher::states::{GlobalDispatcherConfigAccount, MAX_HOOK_PROGRAMS};
use vstd::prelude::*;

verus! {

/// Accounts of the instruction: the signer, who must be the whitelist's
/// authority, and the global whitelist.
pub struct AddAllowedHookProgramCtx {
    pub authority: Pubkey,
    pub global_dispatcher_config_account: GlobalDispatcherConfigAccount,
}

/// The whitelist after `signer` asks to add `hook` to `allowed`, managed by
/// `authority`, and the instruction's outcome. The checks come in this order:
/// the signer, the length, duplicates.
pub open spec fn add_allowed_hook_program_step(
    allowed: Seq<Pubkey>,
    authority: Pubkey,
    signer: Pubkey,
    hook: Pubkey,
) -> (Seq<Pubkey>, Result<(), ErrorCode>) {
    if authority != signer {
        (allowed, Err(ErrorCode::Unauthorized))
    } else if allowed.len() >= MAX_HOOK_PROGRAMS {
        (allowed, Err(ErrorCode::HookLengthExceeded))
    } else if allowed.contains(hook) {
        (allowed, Err(ErrorCode::HookAlreadyExists))
    } else {
        (allowed.push(hook), Ok(()))
    }
}

/// Appends `hook_program` to the global whitelist, if the signer is its
/// authority, it holds fewer than twenty programs and not this one.
pub fn handler(ctx: &mut AddAllowedHookProgramCtx, hook_program: Pubkey) -> (r: Result<(), ErrorCode>)
    ensures
        (final(ctx).global_dispatcher_config_account.allowed_hook_programs@, r) == add_allowed_hook_program_step(
            old(ctx).global_dispatcher_config_account.allowed_hook_programs@,
            old(ctx).global_dispatcher_config_account.authority,
            old(ctx).authority,
            hook_program,
        ),
        final(ctx).global_dispatcher_config_account.authority == old(ctx).global_dispatcher_config_account.authority,
        final(ctx).authority == old(ctx).authority,
        old(ctx).global_dispatcher_config_account.wf() ==> final(ctx).global_dispatcher_config_account.wf(),
{
    if !ctx.global_dispatcher_config_account.authority.key_eq(&ctx.authority) {
        return Err(ErrorCode::Unauthorized);
    }
    if ctx.global_dispatcher_config_account.allowed_hook_programs.len() >= MAX_HOOK_PROGRAMS {
        return Err(ErrorCode::HookLengthExceeded);
    }
    if contains_key(&ctx.global_dispatcher_config_account.allowed_hook_programs, &hook_program) {
        return Err(ErrorCode::HookAlreadyExists);
    }
    ctx.global_dispatcher_config_account.allowed_hook_programs.push(hook_program);
    Ok(())
}

} // verus!
