//! Removing a hook program from a dispatcher.
use crate::pubkey::{first_index_of, lemma_remove_keeps_no_duplicates, no_duplicates, Pubkey};
use crate::transfer_hook_dispatcher::errors::ErrorCode;
use crate::transfer_hook_dispatcher::states::{entry_position, program_ids, DispatcherAccount, HookEntry};
use vstd::prelude::*;

verus! {

/// Accounts of the instruction: the dispatcher, and the signer, who must be
/// its authority.
pub struct UnregisterHookProgramCtx {
    pub dispatcher_account: DispatcherAccount,
    pub authority: Pubkey,
}

/// The dispatcher's entries after `signer` asks to unregister `hook`, and the
/// instruction's outcome: the first entry for `hook` leaves, the others keep
/// their order.
pub open spec fn unregister_hook_program_step(
    entries: Seq<HookEntry>,
    authority: Pubkey,
    signer: Pubkey,
    hook: Pubkey,
) -> (Seq<HookEntry>, Result<(), ErrorCode>) {
    if authority != signer {
        (entries, Err(ErrorCode::Unauthorized))
    } else {
        match first_index_of(program_ids(entries), hook) {
            Some(i) => (entries.remove(i), Ok(())),
            None => (entries, Err(ErrorCode::HookNotFound)),
        }
    }
}

/// Removes the entry for `hook_program` from the dispatcher, if the signer is its authority.
pub fn handler(ctx: &mut UnregisterHookProgramCtx, hook_program: Pubkey) -> (r: Result<(), ErrorCode>)
    ensures
        (final(ctx).dispatcher_account.hook_entries@, r) == unregister_hook_program_step(
            old(ctx).dispatcher_account.hook_entries@,
            old(ctx).dispatcher_account.authority,
            old(ctx).authority,
            hook_program,
        ),
        final(ctx).dispatcher_account.authority == old(ctx).dispatcher_account.authority,
        final(ctx).authority == old(ctx).authority,
        old(ctx).dispatcher_account.wf() ==> final(ctx).dispatcher_account.wf(),
{
    if !ctx.dispatcher_account.authority.key_eq(&ctx.authority) {
        return Err(ErrorCode::Unauthorized);
    }
    match entry_position(&ctx.dispatcher_account.hook_entries, &hook_program) {
        Some(pos) => {
            let ghost before = ctx.dispatcher_account.hook_entries@;
            proof {
                crate::pubkey::lemma_first_index_of(program_ids(before), hook_program);
            }
            ctx.dispatcher_account.hook_entries.remove(pos);
            proof {
                assert(program_ids(ctx.dispatcher_account.hook_entries@) =~= program_ids(before).remove(pos as int));
                if no_duplicates(program_ids(before)) {
                    lemma_remove_keeps_no_duplicates(program_ids(before), pos as int);
                }
            }
            Ok(())
        },
        None => Err(ErrorCode::HookNotFound),
    }
}

} // verus!
