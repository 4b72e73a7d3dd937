//! Removing a hook program from the global whitelist.
use crate::pubkey::{first_index_of, lemma_first_index_of, lemma_remove_keeps_no_duplicates, position_of, Pubkey};
use crate::transfer_hook_dispatcher::errors::ErrorCode;
use crate::transfer_hook_dispatcher::states::GlobalDispatcherConfigAccount;
use vstd::prelude::*;

verus! {

/// Accounts of the instruction: the global whitelist, and the signer, who must
/// be its authority.
pub struct RemoveAllowedHookProgramCtx {
    pub global_dispatcher_config_account: GlobalDispatcherConfigAccount,
    pub authority: Pubkey,
}

/// The whitelist after `signer` asks to remove `hook` from `allowed`, managed
/// by `authority`, and the instruction's outcome: the first occurrence leaves,
/// the others keep their order.
pub open spec fn remove_allowed_hook_program_step(
    allowed: Seq<Pubkey>,
    authority: Pubkey,
    signer: Pubkey,
    hook: Pubkey,
) -> (Seq<Pubkey>, Result<(), ErrorCode>) {
    if authority != signer {
        (allowed, Err(ErrorCode::Unauthorized))
    } else {
        match first_index_of(allowed, hook) {
            Some(i) => (allowed.remove(i), Ok(())),
            None => (allowed, Err(ErrorCode::HookNotFound)),
        }
    }
}

/// Removes `hook_program` from the global whitelist, if the signer is its authority.
pub fn handler(ctx: &mut RemoveAllowedHookProgramCtx, hook_program: Pubkey) -> (r: Result<(), ErrorCode>)
    ensures
        (final(ctx).global_dispatcher_config_account.allowed_hook_programs@, r) == remove_allowed_hook_program_step(
            old(ctx).global_dispatcher_config_account.allowed_hook_programs@,
            old(ctx).global_dispatcher_config_account.authority,
            old(ctx).authority,
            hook_program,
        ),
        final(ctx).global_dispatcher_config_account.authority == old(ctx).global_dispatcher_config_account.authority,
        final(ctx).authority == old(ctx).authority,
        old(ctx).global_dispatcher_config_account.wf() ==> final(ctx).global_dispatcher_config_account.wf(),
{
    if !ctx.global_dispatcher_config_account.authority.key_eq(&ctx.authority) {
        return Err(ErrorCode::Unauthorized);
    }
    proof {
        lemma_first_index_of(ctx.global_dispatcher_config_account.allowed_hook_programs@, hook_program);
    }
    match position_of(&ctx.global_dispatcher_config_account.allowed_hook_programs, &hook_program) {
        Some(pos) => {
            let ghost before = ctx.global_dispatcher_config_account.allowed_hook_programs@;
            ctx.global_dispatcher_config_account.allowed_hook_programs.remove(pos);
            proof {
                if crate::pubkey::no_duplicates(before) {
                    lemma_remove_keeps_no_duplicates(before, pos as int);
                }
            }
            Ok(())
        },
        None => Err(ErrorCode::HookNotFound),
    }
}

} // verus!
