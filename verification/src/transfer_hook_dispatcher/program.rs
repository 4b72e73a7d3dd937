//! The dispatcher's entry points.
use crate::le_bytes::{lemma_le_bytes_of_decoded, u64_le_bytes, u64_to_le_bytes};
use crate::pubkey::Pubkey;
use crate::runtime::hook_interface::{
    execute_discriminator, hook_decoder_panics, hook_instruction_decoding, packed_list_count, selector_of,
    unpack_transfer_hook_instruction, INVALID_INSTRUCTION_DATA,
};
use crate::runtime::token_account::{read_transferring_flag, token_account_transferring};
use crate::transfer_hook_dispatcher::errors::{ErrorCode, InstructionError};
use crate::transfer_hook_dispatcher::instructions::add_allowed_hook_program::{
    self, add_allowed_hook_program_step, AddAllowedHookProgramCtx,
};
use crate::transfer_hook_dispatcher::instructions::initialize_extra_account_meta_list::{
    self, dispatcher_extra_account, list_written_as, ExtraAccountMeta, InitializeExtraAccountMetaListCtx,
    EXTRA_ACCOUNT_META_LIST_SPACE,
};
use crate::transfer_hook_dispatcher::instructions::initialize_global_dispatcher_config::{
    self, InitializeGlobalDispatcherConfigCtx,
};
use crate::transfer_hook_dispatcher::instructions::on_transfer::{
    self, allowed_entries, execute_data, first_entry_for, get_function_hash, readonly_meta, Instruction, OnTransferCtx,
};
use crate::transfer_hook_dispatcher::instructions::register_hook_program::{
    self, register_hook_program_step, RegisterHookProgramCtx,
};
use crate::transfer_hook_dispatcher::instructions::remove_allowed_hook_program::{
    self, remove_allowed_hook_program_step, RemoveAllowedHookProgramCtx,
};
use crate::transfer_hook_dispatcher::instructions::unregister_hook_program::{
    self, unregister_hook_program_step, UnregisterHookProgramCtx,
};
use crate::transfer_hook_dispatcher::states::{AccountInfoLike, HookEntry};
use vstd::prelude::*;

verus! {

/// The instructions of the transfer-hook interface, by kind; an `execute`
/// carries the amount transferred.
#[derive(PartialEq, Eq, Structural, Clone, Copy, Debug)]
pub enum TransferHookInstructionKind {
    Execute { amount: u64 },
    InitializeExtraAccountMetaList,
    UpdateExtraAccountMetaList,
}

/// Creates the global whitelist of hook programs.
pub fn initialize_global_dispatcher_config(ctx: &mut InitializeGlobalDispatcherConfigCtx, authority: Pubkey) -> (r:
    Result<(), ErrorCode>)
    ensures
        r is Ok,
        final(ctx).global_dispatcher_config.allowed_hook_programs@ == Seq::<Pubkey>::empty(),
        final(ctx).global_dispatcher_config.authority == authority,
        final(ctx).global_dispatcher_config.wf(),
        final(ctx).payer == old(ctx).payer,
{
    initialize_global_dispatcher_config::handler(ctx, authority)
}

/// Writes a mint's extra-account list into its freshly created account and
/// starts the mint's dispatcher, managed by the payer.
pub fn initialize_extra_account_meta_list(ctx: &mut InitializeExtraAccountMetaListCtx) -> (r: Result<(), InstructionError>)
    requires
        forall|i: int| 0 <= i < old(ctx).extra_account_meta_list_data@.len() ==> old(ctx).extra_account_meta_list_data@[i] == 0,
    ensures
        exists|metas: Seq<ExtraAccountMeta>| {
            &&& metas.len() == 1
            &&& dispatcher_extra_account(metas[0])
            &&& list_written_as(old(ctx).extra_account_meta_list_data@, metas, final(ctx).extra_account_meta_list_data@, r)
        },
        r is Ok <==> old(ctx).extra_account_meta_list_data@.len() >= EXTRA_ACCOUNT_META_LIST_SPACE,
        r is Ok ==> final(ctx).dispatcher_account.hook_entries@ == Seq::<HookEntry>::empty(),
        r is Ok ==> final(ctx).dispatcher_account.authority == old(ctx).payer,
        r is Ok ==> final(ctx).dispatcher_account.wf(),
        r is Err ==> final(ctx).dispatcher_account == old(ctx).dispatcher_account,
        final(ctx).payer == old(ctx).payer,
{
    initialize_extra_account_meta_list::handler(ctx)
}

/// Adds a hook program to the global whitelist.
pub fn add_allowed_hook_program(ctx: &mut AddAllowedHookProgramCtx, hook_program: Pubkey) -> (r: Result<(), ErrorCode>)
    ensures
        (final(ctx).global_dispatcher_config_account.allowed_hook_programs@, r) == add_allowed_hook_program_step(
            old(ctx).global_dispatcher_config_account.allowed_hook_programs@,
            old(ctx).global_dispatcher_config_account.authority,
            old(ctx).authority,
            hook_program,
        ),
        final(ctx).global_dispatcher_config_account.authority == old(ctx).global_dispatcher_config_account.authority,
        final(ctx).authority == old(ctx).authority,
        old(ctx).global_dispatcher_config_account.wf() ==> final(ctx).global_dispatcher_config_account.wf(),
{
    add_allowed_hook_program::handler(ctx, hook_program)
}

/// Removes a hook program from the global whitelist.
pub fn remove_allowed_hook_program(ctx: &mut RemoveAllowedHookProgramCtx, hook_program: Pubkey) -> (r: Result<
    (),
    ErrorCode,
>)
    ensures
        (final(ctx).global_dispatcher_config_account.allowed_hook_programs@, r) == remove_allowed_hook_program_step(
            old(ctx).global_dispatcher_config_account.allowed_hook_programs@,
            old(ctx).global_dispatcher_config_account.authority,
            old(ctx).authority,
            hook_program,
        ),
        final(ctx).global_dispatcher_config_account.authority == old(ctx).global_dispatcher_config_account.authority,
        final(ctx).authority == old(ctx).authority,
        old(ctx).global_dispatcher_config_account.wf() ==> final(ctx).global_dispatcher_config_account.wf(),
{
    remove_allowed_hook_program::handler(ctx, hook_program)
}

/// Registers a hook program, with the accounts to invoke it with, in a dispatcher.
pub fn register_hook_program(
    ctx: &mut RegisterHookProgramCtx,
    hook_program: Pubkey,
    additional_accounts: Vec<AccountInfoLike>,
) -> (r: Result<(), ErrorCode>)
    ensures
        (final(ctx).dispatcher_account.hook_entries@, r) == register_hook_program_step(
            old(ctx).dispatcher_account.hook_entries@,
            old(ctx).dispatcher_account.authority,
            old(ctx).global_dispatcher_config_account.allowed_hook_programs@,
            old(ctx).authority,
            hook_program,
            additional_accounts,
        ),
        r is Ok ==> old(ctx).global_dispatcher_config_account.allowed_hook_programs@.contains(hook_program),
        final(ctx).dispatcher_account.authority == old(ctx).dispatcher_account.authority,
        final(ctx).global_dispatcher_config_account == old(ctx).global_dispatcher_config_account,
        final(ctx).authority == old(ctx).authority,
        old(ctx).dispatcher_account.wf() ==> final(ctx).dispatcher_account.wf(),
{
    register_hook_program::handler(ctx, hook_program, additional_accounts)
}

/// Removes a hook program from a dispatcher.
pub fn unregister_hook_program(ctx: &mut UnregisterHookProgramCtx, hook_program: Pubkey) -> (r: Result<(), ErrorCode>)
    ensures
        (final(ctx).dispatcher_account.hook_entries@, r) == unregister_hook_program_step(
            old(ctx).dispatcher_account.hook_entries@,
            old(ctx).dispatcher_account.authority,
            old(ctx).authority,
            hook_program,
        ),
        final(ctx).dispatcher_account.authority == old(ctx).dispatcher_account.authority,
        final(ctx).authority == old(ctx).authority,
        old(ctx).dispatcher_account.wf() ==> final(ctx).dispatcher_account.wf(),
{
    unregister_hook_program::handler(ctx, hook_program)
}

/// Refuses a transfer unless the source token account, read from its raw data,
/// is in the middle of a transfer.
pub fn assert_is_transferring(source_token_data: &Vec<u8>) -> (r: Result<(), InstructionError>)
    ensures
        r == match token_account_transferring(source_token_data@) {
            Ok(true) => Ok(()),
            Ok(false) => Err(InstructionError::Custom(ErrorCode::IsNotCurrentlyTransferring)),
            Err(e) => Err(InstructionError::Program(e)),
        },
{
    match read_transferring_flag(source_token_data.as_slice()) {
        Ok(true) => Ok(()),
        Ok(false) => Err(InstructionError::Custom(ErrorCode::IsNotCurrentlyTransferring)),
        Err(e) => Err(InstructionError::Program(e)),
    }
}

/// Runs on a transfer: checks that a transfer is under way, then gives the
/// `execute` instruction of each registered hook program still on the global
/// whitelist, in order.
pub fn on_transfer(ctx: &OnTransferCtx, amount: u64) -> (r: Result<Vec<Instruction>, InstructionError>)
    ensures
        token_account_transferring(ctx.source_token_data@) == Ok::<bool, u64>(false) ==> r == Err::<
            Vec<Instruction>,
            InstructionError,
        >(InstructionError::Custom(ErrorCode::IsNotCurrentlyTransferring)),
        token_account_transferring(ctx.source_token_data@) matches Err(e) ==> r == Err::<
            Vec<Instruction>,
            InstructionError,
        >(InstructionError::Program(e)),
        token_account_transferring(ctx.source_token_data@) == Ok::<bool, u64>(true) ==> (r matches Ok(plan) && {
            let kept = allowed_entries(
                ctx.dispatcher_account.hook_entries@,
                ctx.global_dispatcher_config_account.allowed_hook_programs@,
            );
            &&& plan@.len() == kept.len()
            &&& forall|i: int| 0 <= i < plan@.len() ==> {
                let e = #[trigger] kept[i];
                &&& plan@[i].program_id == e.program_id
                &&& plan@[i].accounts@ == first_entry_for(
                    ctx.dispatcher_account.hook_entries@,
                    e.program_id,
                ).additional_accounts@.map_values(|a: AccountInfoLike| readonly_meta(a))
                &&& plan@[i].data@ == execute_data(amount)
            }
        }),
{
    assert_is_transferring(&ctx.source_token_data)?;
    Ok(on_transfer::handler(ctx, amount))
}

/// What a decoded interface instruction is forwarded with: the amount of an
/// `execute`, little-endian; any other instruction, and a decoding error, is
/// refused.
pub open spec fn forwarded(decoded: Result<TransferHookInstructionKind, u64>) -> Result<Seq<u8>, InstructionError> {
    match decoded {
        Ok(TransferHookInstructionKind::Execute { amount }) => Ok(u64_le_bytes(amount)),
        Ok(_) => Err(InstructionError::Program(INVALID_INSTRUCTION_DATA)),
        Err(e) => Err(InstructionError::Program(e)),
    }
}

/// The forwarded result as bytes, for comparison with `forwarded`.
pub open spec fn forwarded_view(r: Result<[u8; 8], InstructionError>) -> Result<Seq<u8>, InstructionError> {
    match r {
        Ok(bytes) => Ok(bytes@),
        Err(e) => Err(e),
    }
}

/// Turns a decoded interface instruction into the bytes it is forwarded with.
pub fn forward_instruction(decoded: Result<TransferHookInstructionKind, u64>) -> (r: Result<[u8; 8], InstructionError>)
    ensures
        forwarded_view(r) == forwarded(decoded),
{
    match decoded {
        Ok(TransferHookInstructionKind::Execute { amount }) => Ok(u64_to_le_bytes(amount)),
        Ok(_) => Err(InstructionError::Program(INVALID_INSTRUCTION_DATA)),
        Err(e) => Err(InstructionError::Program(e)),
    }
}

/// The bytes that a transfer-hook interface instruction is forwarded with:
/// the amount of an `execute`, little-endian. Any other instruction is refused.
pub fn fallback(data: &[u8]) -> (r: Result<[u8; 8], InstructionError>)
    requires
        !hook_decoder_panics(data@),
    ensures
        forwarded_view(r) == forwarded(hook_instruction_decoding(data@)),
        data@.len() >= 16 && selector_of(data@) == execute_discriminator() ==> forwarded_view(r) == Ok::<
            Seq<u8>,
            InstructionError,
        >(data@.subrange(8, 16)),
{
    let instruction = unpack_transfer_hook_instruction(data);
    proof {
        if data@.len() >= 16 {
            lemma_le_bytes_of_decoded(data@.subrange(8, 16));
        }
    }
    forward_instruction(instruction)
}

/// Whether `data` begins with the selector `selector`.
fn starts_with(data: &[u8], selector: &[u8; 8]) -> (r: bool)
    requires
        data@.len() >= 8,
    ensures
        r == (selector_of(data@) == selector@),
{
    let mut k: usize = 0;
    while k < 8
        invariant
            0 <= k <= 8,
            data@.len() >= 8,
            forall|i: int| 0 <= i < k ==> data@[i] == selector@[i],
        decreases 8 - k,
    {
        if data[k] != selector[k] {
            assert(selector_of(data@)[k as int] != selector@[k as int]);
            return false;
        }
        k = k + 1;
    }
    assert(selector_of(data@) =~= selector@);
    true
}

/// `fallback` on any data: `None` where the interface's decoder would panic
/// (a list instruction whose count exceeds the entries that follow), else the
/// forwarded result.
pub fn try_fallback(data: &[u8]) -> (r: Option<Result<[u8; 8], InstructionError>>)
    ensures
        r is None <==> hook_decoder_panics(data@),
        r matches Some(res) ==> forwarded_view(res) == forwarded(hook_instruction_decoding(data@)),
{
    if data.len() >= 8 {
        let execute_selector = get_function_hash("spl-transfer-hook-interface", "execute");
        let initialize_selector = get_function_hash("spl-transfer-hook-interface", "initialize-extra-account-metas");
        let update_selector = get_function_hash("spl-transfer-hook-interface", "update-extra-account-metas");
        let is_execute = starts_with(data, &execute_selector);
        let is_list = starts_with(data, &initialize_selector) || starts_with(data, &update_selector);
        if !is_execute && is_list {
            let body_len: usize = data.len() - 8;
            let ghost body = data@.subrange(8, data@.len() as int);
            assert(body.len() == body_len);
            if body_len >= 4 && (body_len - 4) % 35 == 0 {
                let count: u64 = data[8] as u64 + (data[9] as u64) * 256 + (data[10] as u64) * 65536 + (data[11] as u64)
                    * 16777216;
                assert(count == packed_list_count(body));
                let entries: u64 = ((body_len - 4) / 35) as u64;
                if count > entries {
                    return None;
                }
            }
        }
    }
    Some(fallback(data))
}

} // verus!
