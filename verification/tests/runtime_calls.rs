use transfer_hooks::le_bytes::u64_to_le_bytes;
use transfer_hooks::pubkey::Pubkey;
use transfer_hooks::runtime::account_resolution::{CALCULATION_FAILURE, SEED_CONFIGS_TOO_LARGE};
use transfer_hooks::runtime::hook_interface::{BUFFER_TOO_LARGE, BUFFER_TOO_SMALL, INVALID_INSTRUCTION_DATA};
use transfer_hooks::transfer_hook_dispatcher::errors::{ErrorCode, InstructionError};
use transfer_hooks::transfer_hook_dispatcher::instructions::initialize_extra_account_meta_list::{
    extra_account_meta_list_size, extra_account_metas, InitializeExtraAccountMetaListCtx, DISPATCHER_ACCOUNT_SPACE,
    DISPATCHER_SEED, EXTRA_ACCOUNT_METAS_SEED,
};
use transfer_hooks::transfer_hook_dispatcher::instructions::on_transfer::{execute, get_function_hash, OnTransferCtx};
use transfer_hooks::transfer_hook_dispatcher::program::{
    assert_is_transferring, fallback, forward_instruction, initialize_extra_account_meta_list, on_transfer,
    try_fallback, TransferHookInstructionKind,
};
use transfer_hooks::transfer_hook_dispatcher::states::{
    AccountInfoLike, DispatcherAccount, GlobalDispatcherConfigAccount, HookEntry,
};

fn key(n: u8) -> Pubkey {
    Pubkey::new_from_array([n; 32])
}

const EXECUTE_SELECTOR: [u8; 8] = [105, 37, 101, 197, 75, 251, 102, 26];
const INITIALIZE_SELECTOR: [u8; 8] = [43, 34, 13, 49, 167, 88, 235, 235];
const UPDATE_SELECTOR: [u8; 8] = [157, 105, 42, 146, 102, 85, 241, 174];
const INVALID_ACCOUNT_DATA: u64 = 4 << 32;

#[test]
fn function_hash_of_global_execute() {
    assert_eq!(get_function_hash("global", "execute"), [130, 221, 242, 154, 13, 193, 189, 29]);
}

#[test]
fn function_hash_depends_on_both_names() {
    assert_ne!(get_function_hash("global", "execute"), get_function_hash("global", "initialize"));
    assert_ne!(get_function_hash("global", "execute"), get_function_hash("state", "execute"));
    // the first eight bytes of sha256("spl-transfer-hook-interface:execute")
    assert_eq!(get_function_hash("spl-transfer-hook-interface", "execute"), EXECUTE_SELECTOR);
    assert_eq!(get_function_hash("spl-transfer-hook-interface", "initialize-extra-account-metas"), INITIALIZE_SELECTOR);
    assert_eq!(get_function_hash("spl-transfer-hook-interface", "update-extra-account-metas"), UPDATE_SELECTOR);
}

#[test]
fn le_bytes_match_std() {
    for x in [0u64, 1, 255, 256, 0x0102_0304_0506_0708, u64::MAX] {
        assert_eq!(u64_to_le_bytes(x), x.to_le_bytes());
    }
}

#[test]
fn execute_builds_the_hook_call() {
    let accounts = vec![
        AccountInfoLike { key: key(1), is_signer: true, is_writable: true },
        AccountInfoLike { key: key(2), is_signer: false, is_writable: true },
    ];
    let i = execute(&accounts, key(9), 1_000);
    assert_eq!(i.program_id.to_bytes(), [9; 32]);
    assert_eq!(i.accounts.len(), 2);
    assert!(i.accounts[0].is_signer && !i.accounts[0].is_writable);
    assert!(!i.accounts[1].is_signer && !i.accounts[1].is_writable);
    assert_eq!(i.data[..8], [130, 221, 242, 154, 13, 193, 189, 29]);
    assert_eq!(i.data[8..], 1_000u64.to_le_bytes());
}

#[test]
fn fallback_forwards_the_amount_of_an_execute() {
    let mut data = EXECUTE_SELECTOR.to_vec();
    data.extend_from_slice(&123_456u64.to_le_bytes());
    assert_eq!(fallback(&data), Ok(123_456u64.to_le_bytes()));
    // trailing bytes are ignored
    data.push(7);
    assert_eq!(fallback(&data), Ok(123_456u64.to_le_bytes()));
}

#[test]
fn fallback_refuses_short_or_unknown_data() {
    assert_eq!(fallback(&[]), Err(InstructionError::Program(INVALID_INSTRUCTION_DATA)));
    assert_eq!(fallback(&EXECUTE_SELECTOR), Err(InstructionError::Program(INVALID_INSTRUCTION_DATA)));
    assert_eq!(fallback(&[1, 2, 3, 4, 5, 6, 7, 8, 0, 0, 0, 0, 0, 0, 0, 0]), Err(InstructionError::Program(INVALID_INSTRUCTION_DATA)));
    assert_eq!(INVALID_INSTRUCTION_DATA, 3 << 32);
}

#[test]
fn fallback_refuses_the_list_instructions() {
    // an initialize-extra-account-metas instruction with an empty list
    let data = [43u8, 34, 13, 49, 167, 88, 235, 235, 0, 0, 0, 0];
    assert_eq!(fallback(&data), Err(InstructionError::Program(INVALID_INSTRUCTION_DATA)));
    let data = [157u8, 105, 42, 146, 102, 85, 241, 174, 0, 0, 0, 0];
    assert_eq!(fallback(&data), Err(InstructionError::Program(INVALID_INSTRUCTION_DATA)));
}

/// A list instruction with `count` in its header and `entries` bytes after it.
fn list_instruction(selector: [u8; 8], count: u32, entries: usize) -> Vec<u8> {
    let mut data = selector.to_vec();
    data.extend_from_slice(&count.to_le_bytes());
    data.extend(std::iter::repeat(0u8).take(entries));
    data
}

#[test]
fn fallback_reports_malformed_lists() {
    // too short for the count
    let data = [43u8, 34, 13, 49, 167, 88, 235, 235, 0, 0];
    assert_eq!(fallback(&data), Err(InstructionError::Program(BUFFER_TOO_SMALL)));
    // part of one entry
    assert_eq!(fallback(&list_instruction(INITIALIZE_SELECTOR, 0, 34)), Err(InstructionError::Program(BUFFER_TOO_SMALL)));
    // one entry and a part of another
    assert_eq!(fallback(&list_instruction(UPDATE_SELECTOR, 1, 36)), Err(InstructionError::Program(BUFFER_TOO_LARGE)));
    // a well-formed list of two entries is still not an execute
    assert_eq!(fallback(&list_instruction(UPDATE_SELECTOR, 2, 70)), Err(InstructionError::Program(INVALID_INSTRUCTION_DATA)));
    assert_eq!((BUFFER_TOO_SMALL, BUFFER_TOO_LARGE), (1, 2));
}

#[test]
fn try_fallback_declines_an_overcounted_list() {
    assert_eq!(try_fallback(&list_instruction(INITIALIZE_SELECTOR, 1, 0)), None);
    assert_eq!(try_fallback(&list_instruction(UPDATE_SELECTOR, 3, 70)), None);
    assert_eq!(
        try_fallback(&list_instruction(UPDATE_SELECTOR, 2, 70)),
        Some(Err(InstructionError::Program(INVALID_INSTRUCTION_DATA)))
    );
    // a count too large, but a malformed list: refused before the count is used
    assert_eq!(
        try_fallback(&list_instruction(UPDATE_SELECTOR, 9, 36)),
        Some(Err(InstructionError::Program(BUFFER_TOO_LARGE)))
    );
    let mut data = EXECUTE_SELECTOR.to_vec();
    data.extend_from_slice(&77u64.to_le_bytes());
    assert_eq!(try_fallback(&data), Some(Ok(77u64.to_le_bytes())));
    assert_eq!(try_fallback(&[1, 2, 3]), Some(Err(InstructionError::Program(INVALID_INSTRUCTION_DATA))));
}

#[test]
fn forward_instruction_keeps_only_an_execute() {
    assert_eq!(forward_instruction(Ok(TransferHookInstructionKind::Execute { amount: 258 })), Ok([2, 1, 0, 0, 0, 0, 0, 0]));
    assert_eq!(
        forward_instruction(Ok(TransferHookInstructionKind::UpdateExtraAccountMetaList)),
        Err(InstructionError::Program(INVALID_INSTRUCTION_DATA))
    );
    assert_eq!(forward_instruction(Err(2)), Err(InstructionError::Program(2)));
}

/// A token account with the transfer-hook extension, its flag set as given.
fn token_account(transferring: bool) -> Vec<u8> {
    let mut data = vec![0u8; 165];
    data[108] = 1; // initialized
    data.push(2); // account type: account
    data.extend_from_slice(&15u16.to_le_bytes()); // extension: transfer hook account
    data.extend_from_slice(&1u16.to_le_bytes()); // length
    data.push(transferring as u8);
    data
}

#[test]
fn transferring_flag_is_read_from_the_account() {
    assert_eq!(assert_is_transferring(&token_account(true)), Ok(()));
    assert_eq!(
        assert_is_transferring(&token_account(false)),
        Err(InstructionError::Custom(ErrorCode::IsNotCurrentlyTransferring))
    );
    assert_eq!(assert_is_transferring(&vec![0u8; 10]), Err(InstructionError::Program(INVALID_ACCOUNT_DATA)));
}

fn transfer_ctx(source_token_data: Vec<u8>) -> OnTransferCtx {
    OnTransferCtx {
        source_token: key(60),
        mint: key(61),
        destination_token: key(62),
        owner: key(63),
        extra_account_meta_list: key(64),
        dispatcher_account: DispatcherAccount {
            hook_entries: vec![HookEntry { program_id: key(5), additional_accounts: vec![] }],
            authority: key(1),
        },
        global_dispatcher_config_account: GlobalDispatcherConfigAccount {
            allowed_hook_programs: vec![key(5)],
            authority: key(2),
        },
        source_token_data,
    }
}

#[test]
fn on_transfer_requires_a_transfer_under_way() {
    let plan = on_transfer(&transfer_ctx(token_account(true)), 9).unwrap();
    assert_eq!(plan.len(), 1);
    assert_eq!(plan[0].program_id.to_bytes(), [5; 32]);
    assert!(matches!(
        on_transfer(&transfer_ctx(token_account(false)), 9),
        Err(InstructionError::Custom(ErrorCode::IsNotCurrentlyTransferring))
    ));
}

#[test]
fn the_extra_account_is_the_dispatcher() {
    let metas = extra_account_metas().unwrap();
    assert_eq!(metas.len(), 1);
    let m = metas[0];
    assert_eq!(m.discriminator, 1);
    let mut config = vec![1u8, 10];
    config.extend_from_slice(b"dispatcher");
    config.extend_from_slice(&[3, 0]);
    config.resize(32, 0);
    assert_eq!(m.address_config.to_vec(), config);
    assert!(!m.is_signer);
    assert!(m.is_writable);
    assert_eq!(DISPATCHER_SEED, "dispatcher");
    assert_eq!(EXTRA_ACCOUNT_METAS_SEED, "extra-account-metas");
}

#[test]
fn list_size_for_one_entry() {
    let metas = extra_account_metas().unwrap();
    assert_eq!(extra_account_meta_list_size(&metas), Ok(51));
    assert_eq!(extra_account_meta_list_size(&Vec::new()), Ok(16));
    assert_eq!(DISPATCHER_ACCOUNT_SPACE, 684);
    assert_eq!(SEED_CONFIGS_TOO_LARGE, 2_724_315_847);
    assert_eq!(CALCULATION_FAILURE, 1 << 32);
}

fn init_ctx(len: usize) -> InitializeExtraAccountMetaListCtx {
    InitializeExtraAccountMetaListCtx {
        payer: key(77),
        extra_account_meta_list: key(78),
        extra_account_meta_list_data: vec![0u8; len],
        mint: key(79),
        dispatcher_account: DispatcherAccount {
            hook_entries: vec![HookEntry { program_id: key(5), additional_accounts: vec![] }],
            authority: key(1),
        },
        token_program: key(80),
        associated_token_program: key(81),
        system_program: key(82),
    }
}

#[test]
fn initialize_writes_the_list_and_starts_the_dispatcher() {
    let mut ctx = init_ctx(51);
    assert_eq!(initialize_extra_account_meta_list(&mut ctx), Ok(()));
    let data = &ctx.extra_account_meta_list_data;
    assert_eq!(data.len(), 51);
    assert_eq!(data[..8], EXECUTE_SELECTOR);
    assert_eq!(data[8..12], 39u32.to_le_bytes());
    assert_eq!(data[12..16], 1u32.to_le_bytes());
    assert_eq!(data[16], 1);
    assert_eq!(data[17..29], [1, 10, b'd', b'i', b's', b'p', b'a', b't', b'c', b'h', b'e', b'r']);
    assert_eq!(data[29..31], [3, 0]);
    assert_eq!(data[49..51], [0, 1]);
    assert!(ctx.dispatcher_account.hook_entries.is_empty());
    assert_eq!(ctx.dispatcher_account.authority.to_bytes(), [77; 32]);
    // a larger account keeps its zeroed tail
    let mut ctx = init_ctx(60);
    assert_eq!(initialize_extra_account_meta_list(&mut ctx), Ok(()));
    assert!(ctx.extra_account_meta_list_data[51..].iter().all(|b| *b == 0));
}

#[test]
fn initialize_fails_on_a_too_small_account() {
    let mut ctx = init_ctx(50);
    assert_eq!(initialize_extra_account_meta_list(&mut ctx), Err(InstructionError::Program(INVALID_ACCOUNT_DATA)));
    // the header was written before the list was found not to fit
    assert_eq!(ctx.extra_account_meta_list_data[..8], EXECUTE_SELECTOR);
    assert_eq!(ctx.extra_account_meta_list_data[8..12], 39u32.to_le_bytes());
    assert!(ctx.extra_account_meta_list_data[12..].iter().all(|b| *b == 0));
    let mut ctx = init_ctx(11);
    assert_eq!(initialize_extra_account_meta_list(&mut ctx), Err(InstructionError::Program(INVALID_ACCOUNT_DATA)));
    assert_eq!(ctx.extra_account_meta_list_data, vec![0u8; 11]);
    let mut ctx = init_ctx(20);
    assert!(matches!(initialize_extra_account_meta_list(&mut ctx), Err(InstructionError::Program(_))));
    assert_eq!(ctx.dispatcher_account.hook_entries.len(), 1);
    assert_eq!(ctx.dispatcher_account.authority.to_bytes(), [1; 32]);
}
