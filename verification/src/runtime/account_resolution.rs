//! Extra-account lists of the transfer-hook interface, from the account
//! resolution library.
use crate::runtime::hook_interface::execute_discriminator;
use crate::transfer_hook_dispatcher::instructions::initialize_extra_account_meta_list::{ExtraAccountMeta, Seed};
use spl_tlv_account_resolution::state::ExtraAccountMetaList;
use spl_transfer_hook_interface::instruction::ExecuteInstruction;
use vstd::prelude::*;

verus! {

/// The error number of a list of seed configurations that does not fit in 32 bytes.
pub const SEED_CONFIGS_TOO_LARGE: u64 = 2724315847;

/// The error number of a failed size calculation.
pub const CALCULATION_FAILURE: u64 = 4294967296;

/// The packed form of one seed configuration: a tag, then its fields; a
/// literal's bytes follow their length.
pub open spec fn seed_config_bytes(s: Seed) -> Seq<u8> {
    match s {
        Seed::Literal { bytes } => seq![1u8, bytes@.len() as u8] + bytes@,
        Seed::AccountKey { index } => seq![3u8, index],
    }
}

/// The packed forms of `seeds`, one after the other.
pub open spec fn packed_seed_configs(seeds: Seq<Seed>) -> Seq<u8>
    decreases seeds.len(),
{
    if seeds.len() == 0 {
        Seq::empty()
    } else {
        packed_seed_configs(seeds.drop_last()) + seed_config_bytes(seeds.last())
    }
}

/// `packed` followed by zeros up to 32 bytes.
pub open spec fn zero_padded(packed: Seq<u8>) -> Seq<u8> {
    packed + Seq::new((32 - packed.len()) as nat, |i: int| 0u8)
}

/// Whether `m` describes a program-derived address of the seeds packed in
/// `config`, with the given flags.
pub open spec fn seeded_meta(m: ExtraAccountMeta, config: Seq<u8>, is_signer: bool, is_writable: bool) -> bool {
    &&& m.discriminator == 1
    &&& m.address_config@ == zero_padded(config)
    &&& m.is_signer == is_signer
    &&& m.is_writable == is_writable
}

/// A literal seed is shorter than 254 bytes.
pub open spec fn literal_is_short(s: Seed) -> bool {
    match s {
        Seed::Literal { bytes } => bytes@.len() <= 253,
        Seed::AccountKey { .. } => true,
    }
}

/// The error of a seed list that does not fit.
pub open spec fn seeds_too_large() -> Result<ExtraAccountMeta, u64> {
    Err(SEED_CONFIGS_TOO_LARGE)
}

/// Calls `ExtraAccountMeta::new_with_seeds`. The contract states what the
/// library's documented packing shows: the seed configurations are packed one
/// after the other (a tag, a literal's length and bytes, or an account index)
/// and padded with zeros to 32 bytes; a list that does not fit is refused.
/// Literals of 254 bytes or more, on which the library's size arithmetic
/// overflows, are left out.
#[verifier::external_body]
pub(crate) fn extra_account_meta_from_seeds(seeds: &Vec<Seed>, is_signer: bool, is_writable: bool) -> (r: Result<ExtraAccountMeta, u64>)
    requires
        forall|i: int| 0 <= i < seeds@.len() ==> literal_is_short(#[trigger] seeds@[i]),
    ensures
        packed_seed_configs(seeds@).len() <= 32 ==> r is Ok,
        r is Ok ==> seeded_meta(r->Ok_0, packed_seed_configs(seeds@), is_signer, is_writable),
        packed_seed_configs(seeds@).len() > 32 ==> r == seeds_too_large(),
{
    let converted: Vec<spl_tlv_account_resolution::seeds::Seed> = seeds.iter().map(|s| match s {
        Seed::Literal { bytes } => spl_tlv_account_resolution::seeds::Seed::Literal { bytes: bytes.clone() },
        Seed::AccountKey { index } => spl_tlv_account_resolution::seeds::Seed::AccountKey { index: *index },
    }).collect();
    match spl_tlv_account_resolution::account::ExtraAccountMeta::new_with_seeds(&converted, is_signer, is_writable) {
        Ok(m) => Ok(ExtraAccountMeta {
            discriminator: m.discriminator,
            address_config: m.address_config,
            is_signer: bool::from(m.is_signer),
            is_writable: bool::from(m.is_writable),
        }),
        Err(e) => Err(u64::from(e)),
    }
}

/// The size of a list of `n` entries: header and count, then 35 bytes each.
pub open spec fn list_size_of(n: usize) -> Result<usize, u64> {
    if 35 * n + 4 <= usize::MAX {
        if 16 + 35 * n <= usize::MAX {
            Ok((16 + 35 * n) as usize)
        } else {
            Ok(usize::MAX)
        }
    } else {
        Err(CALCULATION_FAILURE)
    }
}

/// Calls `ExtraAccountMetaList::size_of`, which the library computes as the
/// 12 bytes of the list's header plus the 4-byte count and 35 bytes per entry,
/// the header added with saturation and the rest checked for overflow.
#[verifier::external_body]
pub(crate) fn extra_account_meta_list_size_of(num_items: usize) -> (r: Result<usize, u64>)
    ensures
        r == list_size_of(num_items),
{
    ExtraAccountMetaList::size_of(num_items).map_err(u64::from)
}

/// The error number of account data that cannot hold what is written to it.
pub const INVALID_ACCOUNT_DATA: u64 = 17179869184;

/// The error number of a length that does not fit in the list's 32-bit length field.
pub const ACCOUNT_DATA_TOO_SMALL: u64 = 21474836480;

/// The 32-bit little-endian bytes of `x`.
pub open spec fn u32_le_bytes(x: nat) -> Seq<u8> {
    seq![(x % 256) as u8, ((x / 256) % 256) as u8, ((x / 65536) % 256) as u8, ((x / 16777216) % 256) as u8]
}

/// The 35 packed bytes of one entry: its discriminator, its address
/// configuration, then its signer and writable flags as 1 or 0.
pub open spec fn packed_meta(m: ExtraAccountMeta) -> Seq<u8> {
    seq![m.discriminator] + m.address_config@ + seq![
        if m.is_signer { 1u8 } else { 0u8 },
        if m.is_writable { 1u8 } else { 0u8 },
    ]
}

/// The packed entries of `metas`, in order.
pub open spec fn packed_metas(metas: Seq<ExtraAccountMeta>) -> Seq<u8>
    decreases metas.len(),
{
    if metas.len() == 0 {
        Seq::empty()
    } else {
        packed_metas(metas.drop_last()) + packed_meta(metas.last())
    }
}

/// The size of the list's value: the 4-byte count and 35 bytes per entry.
pub open spec fn list_value_len(metas: Seq<ExtraAccountMeta>) -> nat {
    4 + 35 * metas.len()
}

/// The list of `metas` as it is written at the head of the account: the
/// `execute` selector, the value's length, the count, then the entries.
pub open spec fn list_image(metas: Seq<ExtraAccountMeta>) -> Seq<u8> {
    execute_discriminator() + u32_le_bytes(list_value_len(metas)) + u32_le_bytes(metas.len()) + packed_metas(metas)
}

/// The account data after writing the list of `metas` into the zeroed `data`,
/// and the outcome (or the error's number), step by step as the library goes:
/// the value's size must be computable, the data must hold the header, the
/// size must fit in 32 bits (the selector is written by then), and the data
/// must hold the whole value (the selector and the length are written by then).
pub open spec fn extra_account_meta_list_written(data: Seq<u8>, metas: Seq<ExtraAccountMeta>) -> (Seq<u8>, Result<(), u64>) {
    let size = list_value_len(metas);
    if size > usize::MAX {
        (data, Err(CALCULATION_FAILURE))
    } else if data.len() < 12 {
        (data, Err(INVALID_ACCOUNT_DATA))
    } else if size > u32::MAX {
        (execute_discriminator() + data.subrange(8, data.len() as int), Err(ACCOUNT_DATA_TOO_SMALL))
    } else if data.len() < 12 + size {
        (execute_discriminator() + u32_le_bytes(size) + data.subrange(12, data.len() as int), Err(INVALID_ACCOUNT_DATA))
    } else {
        (list_image(metas) + data.subrange((12 + size) as int, data.len() as int), Ok(()))
    }
}

/// Calls `ExtraAccountMetaList::init::<ExecuteInstruction>` on the account data,
/// which writes the list of `metas` for the interface's `execute` instruction.
/// The data must be zeroed, as a fresh account is: on data that is not a valid
/// list of entries the library panics. The contract states the bytes written
/// and the outcome, as the library's source computes them.
#[verifier::external_body]
pub(crate) fn init_extra_account_meta_list(data: &mut Vec<u8>, metas: &Vec<ExtraAccountMeta>) -> (r: Result<(), u64>)
    requires
        forall|i: int| 0 <= i < old(data)@.len() ==> old(data)@[i] == 0,
    ensures
        (final(data)@, r) == extra_account_meta_list_written(old(data)@, metas@),
{
    let converted: Vec<spl_tlv_account_resolution::account::ExtraAccountMeta> = metas.iter().map(|m| {
        spl_tlv_account_resolution::account::ExtraAccountMeta {
            discriminator: m.discriminator,
            address_config: m.address_config,
            is_signer: m.is_signer.into(),
            is_writable: m.is_writable.into(),
        }
    }).collect();
    ExtraAccountMetaList::init::<ExecuteInstruction>(data.as_mut_slice(), &converted).map_err(u64::from)
}

} // verus!
