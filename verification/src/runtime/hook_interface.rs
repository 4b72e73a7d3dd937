//! Decoding of transfer-hook interface instructions, from the interface's library.
use crate::le_bytes::u64_from_le;
use crate::runtime::hashing::function_hash;
use crate::transfer_hook_dispatcher::program::TransferHookInstructionKind;
use spl_transfer_hook_interface::instruction::TransferHookInstruction;
use vstd::prelude::*;

verus! {

/// The error number of malformed instruction data.
pub const INVALID_INSTRUCTION_DATA: u64 = 12884901888;

/// The error number of a byte buffer too small for the list it should hold.
pub const BUFFER_TOO_SMALL: u64 = 1;

/// The error number of a byte buffer that holds a list and a partial entry.
pub const BUFFER_TOO_LARGE: u64 = 2;

/// The size in bytes of one packed extra-account entry.
pub const PACKED_META_LEN: u64 = 35;

/// The selector of the interface's instruction `name`: the first eight bytes
/// of the SHA-256 digest of `spl-transfer-hook-interface:name`.
pub open spec fn interface_selector(name: Seq<char>) -> Seq<u8> {
    function_hash("spl-transfer-hook-interface"@, name)
}

/// The selector of the interface's `execute` instruction.
pub open spec fn execute_discriminator() -> Seq<u8> {
    interface_selector("execute"@)
}

/// The selector of the instruction that initializes the extra-account list.
pub open spec fn initialize_extra_account_metas_discriminator() -> Seq<u8> {
    interface_selector("initialize-extra-account-metas"@)
}

/// The selector of the instruction that updates the extra-account list.
pub open spec fn update_extra_account_metas_discriminator() -> Seq<u8> {
    interface_selector("update-extra-account-metas"@)
}

/// The 32-bit little-endian count at the head of a packed list.
pub open spec fn packed_list_count(body: Seq<u8>) -> int {
    body[0] + 256 * body[1] + 65536 * body[2] + 16777216 * body[3]
}

/// How a packed list of extra-account entries (a 4-byte count, then whole
/// 35-byte entries) decodes: too short for the count, or not a whole number of
/// entries, is refused; otherwise the instruction is `kind`.
pub open spec fn packed_list_decoding(body: Seq<u8>, kind: TransferHookInstructionKind) -> Result<
    TransferHookInstructionKind,
    u64,
> {
    if body.len() < 4 {
        Err(BUFFER_TOO_SMALL)
    } else if (body.len() - 4) % (PACKED_META_LEN as int) != 0 {
        if body.len() - 4 < PACKED_META_LEN {
            Err(BUFFER_TOO_SMALL)
        } else {
            Err(BUFFER_TOO_LARGE)
        }
    } else {
        Ok(kind)
    }
}

/// A well-sized packed list whose count names more entries than follow it.
pub open spec fn packed_list_overcounted(body: Seq<u8>) -> bool {
    &&& body.len() >= 4
    &&& (body.len() - 4) % (PACKED_META_LEN as int) == 0
    &&& packed_list_count(body) > (body.len() - 4) / (PACKED_META_LEN as int)
}

/// The first eight bytes of instruction data.
pub open spec fn selector_of(data: Seq<u8>) -> Seq<u8> {
    data.subrange(0, 8)
}

/// What the interface's decoder makes of `data`: the kind of instruction (with
/// the little-endian amount of an `execute`), or the error number of why it is
/// refused. The selectors are tried in the order execute, initialize, update.
pub open spec fn hook_instruction_decoding(data: Seq<u8>) -> Result<TransferHookInstructionKind, u64> {
    if data.len() < 8 {
        Err(INVALID_INSTRUCTION_DATA)
    } else if selector_of(data) == execute_discriminator() {
        if data.len() >= 16 {
            Ok(TransferHookInstructionKind::Execute { amount: u64_from_le(data.subrange(8, 16)) })
        } else {
            Err(INVALID_INSTRUCTION_DATA)
        }
    } else if selector_of(data) == initialize_extra_account_metas_discriminator() {
        packed_list_decoding(
            data.subrange(8, data.len() as int),
            TransferHookInstructionKind::InitializeExtraAccountMetaList,
        )
    } else if selector_of(data) == update_extra_account_metas_discriminator() {
        packed_list_decoding(
            data.subrange(8, data.len() as int),
            TransferHookInstructionKind::UpdateExtraAccountMetaList,
        )
    } else {
        Err(INVALID_INSTRUCTION_DATA)
    }
}

/// The data on which the decoder panics: a list instruction whose count names
/// more entries than the data holds.
pub open spec fn hook_decoder_panics(data: Seq<u8>) -> bool {
    &&& data.len() >= 8
    &&& selector_of(data) != execute_discriminator()
    &&& (selector_of(data) == initialize_extra_account_metas_discriminator() || selector_of(data)
        == update_extra_account_metas_discriminator())
    &&& packed_list_overcounted(data.subrange(8, data.len() as int))
}

/// Calls `TransferHookInstruction::unpack`, and keeps the kind of instruction
/// (with the amount of an `execute`) or the error's number. The contract states
/// what the decoder's source shows, selector by selector. The decoder panics
/// when a list's count exceeds the entries that follow it, so that data is
/// left out.
#[verifier::external_body]
pub(crate) fn unpack_transfer_hook_instruction(data: &[u8]) -> (r: Result<TransferHookInstructionKind, u64>)
    requires
        !hook_decoder_panics(data@),
    ensures
        r == hook_instruction_decoding(data@),
{
    match TransferHookInstruction::unpack(data) {
        Ok(TransferHookInstruction::Execute { amount }) => Ok(TransferHookInstructionKind::Execute { amount }),
        Ok(TransferHookInstruction::InitializeExtraAccountMetaList { .. }) => Ok(
            TransferHookInstructionKind::InitializeExtraAccountMetaList,
        ),
        Ok(TransferHookInstruction::UpdateExtraAccountMetaList { .. }) => Ok(
            TransferHookInstructionKind::UpdateExtraAccountMetaList,
        ),
        Err(e) => Err(u64::from(e)),
    }
}

} // verus!
