//! Registering a hook program with a dispatcher.
use crate::pubkey::{contains_key, Pubkey};
use crate::transfer_hook_dispatcher::errors::ErrorCode;
use crate::transfer_hook_dispatcher::states::{
    entry_position, program_ids, AccountInfoLike, DispatcherAccount, GlobalDispatcherConfigAccount, HookEntry,
    MAX_HOOK_PROGRAMS,
};
use vstd::prelude::*;

verus! {

/// Accounts of the instruction: the dispatcher, the global whitelist (read
/// only), and the signer, who must be the dispatcher's authority.
pub struct RegisterHookProgramCtx {
    pub dispatcher_account: DispatcherAccount,
    pub global_dispatcher_config_account: GlobalDispatcherConfigAccount,
    pub authority: Pubkey,
}

/// The dispatcher's entries after `signer` asks to register `hook` with
/// `additional_accounts`, and the instruction's outcome. The checks come in
/// this order: the signer, the global whitelist, duplicates, the length.
pub open spec fn register_hook_program_step(
    entries: Seq<HookEntry>,
    authority: Pubkey,
    allowed: Seq<Pubkey>,
    signer: Pubkey,
    hook: Pubkey,
    additional_accounts: Vec<AccountInfoLike>,
) -> (Seq<HookEntry>, Result<(), ErrorCode>) {
    if authority != signer {
        (entries, Err(ErrorCode::Unauthorized))
    } else if !allowed.contains(hook) {
        (entries, Err(ErrorCode::HookNotAllowed))
    } else if program_ids(entries).contains(hook) {
        (entries, Err(ErrorCode::HookAlreadyExists))
    } else if entries.len() >= MAX_HOOK_PROGRAMS {
        (entries, Err(ErrorCode::HookLengthExceeded))
    } else {
        (entries.push(HookEntry { program_id: hook, additional_accounts }), Ok(()))
    }
}

/// Appends `hook_program`, with the accounts to invoke it with, to the
/// dispatcher, if the signer is its authority, the program is on the global
/// whitelist, not yet registered, and fewer than twenty are.
pub fn handler(
    ctx: &mut RegisterHookProgramCtx,
    hook_program: Pubkey,
    additional_accounts: Vec<AccountInfoLike>,
) -> (r: Result<(), ErrorCode>)
    ensures
        (final(ctx).dispatcher_account.hook_entries@, r) == register_hook_program_step(
            old(ctx).dispatcher_account.hook_entries@,
            old(ctx).dispatcher_account.authority,
            old(ctx).global_dispatcher_config_account.allowed_hook_programs@,
            old(ctx).authority,
            hook_program,
            additional_accounts,
        ),
        r is Ok ==> old(ctx).global_dispatcher_config_account.allowed_hook_programs@.contains(hook_program),
        final(ctx).dispatcher_account.authority == old(ctx).dispatcher_account.authority,
        final(ctx).global_dispatcher_config_account == old(ctx).global_dispatcher_config_account,
        final(ctx).authority == old(ctx).authority,
        old(ctx).dispatcher_account.wf() ==> final(ctx).dispatcher_account.wf(),
{
    if !ctx.dispatcher_account.authority.key_eq(&ctx.authority) {
        return Err(ErrorCode::Unauthorized);
    }
    if !contains_key(&ctx.global_dispatcher_config_account.allowed_hook_programs, &hook_program) {
        return Err(ErrorCode::HookNotAllowed);
    }
    proof {
        crate::pubkey::lemma_first_index_of(program_ids(ctx.dispatcher_account.hook_entries@), hook_program);
    }
    if entry_position(&ctx.dispatcher_account.hook_entries, &hook_program).is_some() {
        return Err(ErrorCode::HookAlreadyExists);
    }
    if ctx.dispatcher_account.hook_entries.len() >= MAX_HOOK_PROGRAMS {
        return Err(ErrorCode::HookLengthExceeded);
    }
    let ghost before = ctx.dispatcher_account.hook_entries@;
    ctx.dispatcher_account.hook_entries.push(HookEntry { program_id: hook_program, additional_accounts });
    proof {
        assert(program_ids(ctx.dispatcher_account.hook_entries@) =~= program_ids(before).push(hook_program));
    }
    Ok(())
}

} // verus!
