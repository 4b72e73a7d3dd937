//! Setting up a mint's dispatcher and the list of extra accounts that the token
//! program passes to it on each transfer.
use crate::pubkey::Pubkey;
use crate::runtime::account_resolution::{
    extra_account_meta_from_seeds, extra_account_meta_list_size_of, extra_account_meta_list_written,
    init_extra_account_meta_list, list_size_of, literal_is_short, packed_seed_configs, seed_config_bytes,
};
use crate::transfer_hook_dispatcher::errors::InstructionError;
use crate::transfer_hook_dispatcher::states::{DispatcherAccount, HookEntry};
use vstd::prelude::*;
use vstd::utf8::encode_utf8;

verus! {

/// The seed of a dispatcher's program-derived address; the mint's address follows it.
pub const DISPATCHER_SEED: &'static str = "dispatcher";

/// The seed of the extra-account list's address; the mint's address follows it.
pub const EXTRA_ACCOUNT_METAS_SEED: &'static str = "extra-account-metas";

/// The space of a dispatcher's account: discriminator, room for twenty hook
/// programs with the list's length prefix, and the authority.
pub const DISPATCHER_ACCOUNT_SPACE: usize = 8 + (4 + 32 * 20) + 32;

/// The space of the extra-account list's account for its single entry: the
/// list's header (selector and length), its count, and the 35-byte entry.
pub const EXTRA_ACCOUNT_META_LIST_SPACE: usize = 8 + 4 + 4 + 35;

/// One part of the recipe for a program-derived address.
pub enum Seed {
    /// Bytes taken as they are.
    Literal { bytes: Vec<u8> },
    /// The address of the account at `index` in the instruction's account list.
    AccountKey { index: u8 },
}

/// An extra account that the token program adds to each transfer-hook call:
/// how its address is found (`discriminator` 1: a program-derived address of
/// the seeds packed in `address_config`), and its flags.
#[derive(Clone, Copy, Debug)]
pub struct ExtraAccountMeta {
    pub discriminator: u8,
    pub address_config: [u8; 32],
    pub is_signer: bool,
    pub is_writable: bool,
}

/// Accounts of the instruction: who pays and becomes the dispatcher's
/// authority, the extra-account list (address and raw data, created just
/// before), the mint, the dispatcher that is created, and the programs involved.
pub struct InitializeExtraAccountMetaListCtx {
    pub payer: Pubkey,
    pub extra_account_meta_list: Pubkey,
    pub extra_account_meta_list_data: Vec<u8>,
    pub mint: Pubkey,
    pub dispatcher_account: DispatcherAccount,
    pub token_program: Pubkey,
    pub associated_token_program: Pubkey,
    pub system_program: Pubkey,
}

/// The packed seeds of the dispatcher's address: the literal `dispatcher`,
/// then the address of the first account of the transfer (the source).
pub open spec fn dispatcher_address_config() -> Seq<u8> {
    seq![1u8, 10u8] + encode_utf8(DISPATCHER_SEED@) + seq![3u8, 0u8] + Seq::new(18, |i: int| 0u8)
}

/// The single extra account: the mint's dispatcher, writable, not a signer.
pub open spec fn dispatcher_extra_account(m: ExtraAccountMeta) -> bool {
    &&& m.discriminator == 1
    &&& m.address_config@ == dispatcher_address_config()
    &&& !m.is_signer
    &&& m.is_writable
}

/// Writing the list of `metas` into `before` gives `after`, and the
/// instruction fails exactly when the write does, with its error.
pub open spec fn list_written_as(
    before: Seq<u8>,
    metas: Seq<ExtraAccountMeta>,
    after: Seq<u8>,
    r: Result<(), InstructionError>,
) -> bool {
    let (written, outcome) = extra_account_meta_list_written(before, metas);
    &&& written == after
    &&& match outcome {
        Ok(_) => r is Ok,
        Err(e) => r == Err::<(), InstructionError>(InstructionError::Program(e)),
    }
}

/// The seeds of the dispatcher's address.
fn dispatcher_seeds() -> (r: Vec<Seed>)
    ensures
        packed_seed_configs(r@) == seq![1u8, 10u8] + encode_utf8(DISPATCHER_SEED@) + seq![3u8, 0u8],
        encode_utf8(DISPATCHER_SEED@).len() == 10,
        forall|i: int| 0 <= i < r@.len() ==> literal_is_short(#[trigger] r@[i]),
{
    let text = DISPATCHER_SEED.as_bytes();
    let mut bytes: Vec<u8> = Vec::new();
    let mut i: usize = 0;
    proof {
        reveal_strlit("dispatcher");
        vstd::utf8::is_ascii_chars_encode_utf8(DISPATCHER_SEED@);
    }
    assert(text@.len() == 10);
    while i < text.len()
        invariant
            0 <= i <= text@.len(),
            bytes@ == text@.subrange(0, i as int),
        decreases text.len() - i,
    {
        bytes.push(text[i]);
        assert(text@.subrange(0, i + 1) =~= text@.subrange(0, i as int).push(text@[i as int]));
        i = i + 1;
    }
    assert(text@.subrange(0, text@.len() as int) =~= text@);
    let mut seeds: Vec<Seed> = Vec::new();
    seeds.push(Seed::Literal { bytes });
    seeds.push(Seed::AccountKey { index: 0 });
    proof {
        let s = seeds@;
        assert(s.drop_last().drop_last() =~= Seq::<Seed>::empty());
        assert(s.drop_last().last() == s[0]);
        assert(packed_seed_configs(s.drop_last().drop_last()) =~= Seq::<u8>::empty());
        assert(packed_seed_configs(s.drop_last()) =~= seed_config_bytes(s[0]));
        assert(seed_config_bytes(s[0]) =~= seq![1u8, 10u8] + encode_utf8(DISPATCHER_SEED@));
        assert(seed_config_bytes(s[1]) =~= seq![3u8, 0u8]);
        assert(packed_seed_configs(s) =~= seq![1u8, 10u8] + encode_utf8(DISPATCHER_SEED@) + seq![3u8, 0u8]);
    }
    seeds
}

/// The extra accounts of every transfer: the mint's dispatcher.
pub fn extra_account_metas() -> (r: Result<Vec<ExtraAccountMeta>, u64>)
    ensures
        r matches Ok(metas) && metas@.len() == 1 && dispatcher_extra_account(metas@[0]),
{
    let seeds = dispatcher_seeds();
    let meta = extra_account_meta_from_seeds(&seeds, false, true);
    match meta {
        Ok(m) => {
            let mut metas: Vec<ExtraAccountMeta> = Vec::new();
            metas.push(m);
            proof {
                assert(m.address_config@ =~= dispatcher_address_config());
            }
            Ok(metas)
        },
        Err(e) => Err(e),
    }
}

/// The size of the extra-account list's account for `metas`: the list's
/// header (selector and length), its count, and 35 bytes for each entry.
pub fn extra_account_meta_list_size(metas: &Vec<ExtraAccountMeta>) -> (r: Result<u64, u64>)
    ensures
        r == match list_size_of(metas@.len() as usize) {
            Ok(size) => Ok::<u64, u64>(size as u64),
            Err(e) => Err(e),
        },
        metas@.len() <= 1000 ==> r == Ok::<u64, u64>((16 + 35 * metas@.len()) as u64),
{
    match extra_account_meta_list_size_of(metas.len()) {
        Ok(size) => Ok(size as u64),
        Err(e) => Err(e),
    }
}

/// Writes the extra-account list into its freshly created (zeroed) account and
/// starts the dispatcher with no hook programs, managed by the payer.
pub fn handler(ctx: &mut InitializeExtraAccountMetaListCtx) -> (r: Result<(), InstructionError>)
    requires
        forall|i: int| 0 <= i < old(ctx).extra_account_meta_list_data@.len() ==> old(ctx).extra_account_meta_list_data@[i] == 0,
    ensures
        exists|metas: Seq<ExtraAccountMeta>| {
            &&& metas.len() == 1
            &&& dispatcher_extra_account(metas[0])
            &&& list_written_as(old(ctx).extra_account_meta_list_data@, metas, final(ctx).extra_account_meta_list_data@, r)
        },
        r is Ok <==> old(ctx).extra_account_meta_list_data@.len() >= EXTRA_ACCOUNT_META_LIST_SPACE,
        r is Ok ==> final(ctx).dispatcher_account.hook_entries@ == Seq::<HookEntry>::empty(),
        r is Ok ==> final(ctx).dispatcher_account.authority == old(ctx).payer,
        r is Ok ==> final(ctx).dispatcher_account.wf(),
        r is Err ==> final(ctx).dispatcher_account == old(ctx).dispatcher_account,
        final(ctx).payer == old(ctx).payer,
{
    let account_metas = match extra_account_metas() {
        Ok(metas) => metas,
        Err(e) => {
            proof {
                assert(false);
            }
            return Err(InstructionError::Program(e));
        },
    };
    let ghost metas = account_metas@;
    let written = init_extra_account_meta_list(&mut ctx.extra_account_meta_list_data, &account_metas);
    match written {
        Ok(_unit) => {
            assert(written == Ok::<(), u64>(()));
            assert(extra_account_meta_list_written(old(ctx).extra_account_meta_list_data@, metas) == (
                ctx.extra_account_meta_list_data@,
                Ok::<(), u64>(()),
            ));
            ctx.dispatcher_account.hook_entries = Vec::new();
            ctx.dispatcher_account.authority = ctx.payer;
            Ok(())
        },
        Err(e) => {
            assert(extra_account_meta_list_written(old(ctx).extra_account_meta_list_data@, metas) == (
                ctx.extra_account_meta_list_data@,
                Err::<(), u64>(e),
            ));
            Err(InstructionError::Program(e))
        },
    }
}

} // verus!
