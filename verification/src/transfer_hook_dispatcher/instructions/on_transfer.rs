//! What the dispatcher does on a transfer: one `execute` instruction for each
//! registered hook program that is still on the global whitelist.
use crate::pubkey::{contains_key, first_index_of, lemma_first_index_of, lemma_first_index_unique, Pubkey};
use crate::le_bytes::{lemma_decoded_le_bytes, u64_from_le, u64_le_bytes, u64_to_le_bytes};
use crate::runtime::hashing::{function_hash, sha256};
use crate::transfer_hook_dispatcher::states::{
    entry_position, program_ids, AccountInfoLike, DispatcherAccount, GlobalDispatcherConfigAccount, HookEntry,
};
use vstd::prelude::*;
use vstd::utf8::encode_utf8;

verus! {

/// Accounts of a transfer: the token accounts, the mint, the source's owner,
/// the extra-account list, the mint's dispatcher and the global whitelist of
/// hook programs, with the source token account's raw data.
pub struct OnTransferCtx {
    pub source_token: Pubkey,
    pub mint: Pubkey,
    pub destination_token: Pubkey,
    pub owner: Pubkey,
    pub extra_account_meta_list: Pubkey,
    pub dispatcher_account: DispatcherAccount,
    pub global_dispatcher_config_account: GlobalDispatcherConfigAccount,
    pub source_token_data: Vec<u8>,
}

/// Accounts that a hook program's `execute` instruction expects.
pub struct Execute {
    pub source_token: Pubkey,
    pub mint: Pubkey,
    pub destination_token: Pubkey,
    pub owner: Pubkey,
}

/// An account as an instruction names it.
#[derive(Clone, Copy, Debug)]
pub struct AccountMeta {
    pub pubkey: Pubkey,
    pub is_signer: bool,
    pub is_writable: bool,
}

/// An instruction for another program.
pub struct Instruction {
    pub program_id: Pubkey,
    pub accounts: Vec<AccountMeta>,
    pub data: Vec<u8>,
}

/// The data of a hook program's `execute` instruction for `amount`.
pub open spec fn execute_data(amount: u64) -> Seq<u8> {
    function_hash("global"@, "execute"@) + u64_le_bytes(amount)
}

/// An account passed on read-only, with its signer flag.
pub open spec fn readonly_meta(a: AccountInfoLike) -> AccountMeta {
    AccountMeta { pubkey: a.key, is_signer: a.is_signer, is_writable: false }
}

/// The first entry for `program_id` in `entries`.
pub open spec fn first_entry_for(entries: Seq<HookEntry>, program_id: Pubkey) -> HookEntry {
    entries[first_index_of(program_ids(entries), program_id)->Some_0]
}

/// Appends the bytes of `s` to `out`.
fn push_str_bytes(out: &mut Vec<u8>, s: &str)
    ensures
        final(out)@ == old(out)@ + encode_utf8(s@),
{
    let bytes = s.as_bytes();
    let mut i: usize = 0;
    while i < bytes.len()
        invariant
            0 <= i <= bytes@.len(),
            bytes@ == encode_utf8(s@),
            out@ == old(out)@ + bytes@.subrange(0, i as int),
        decreases bytes.len() - i,
    {
        out.push(bytes[i]);
        assert(bytes@.subrange(0, i + 1) =~= bytes@.subrange(0, i as int).push(bytes@[i as int]));
        i = i + 1;
    }
    assert(bytes@.subrange(0, bytes@.len() as int) =~= bytes@);
}

/// The selector of the instruction `name` in `namespace`.
pub fn get_function_hash(namespace: &str, name: &str) -> (r: [u8; 8])
    ensures
        r@ == function_hash(namespace@, name@),
{
    let mut preimage: Vec<u8> = Vec::new();
    push_str_bytes(&mut preimage, namespace);
    preimage.push(58u8);
    push_str_bytes(&mut preimage, name);
    assert(preimage@ =~= encode_utf8(namespace@) + seq![58u8] + encode_utf8(name@));
    let digest = sha256(preimage.as_slice());
    let sighash: [u8; 8] = [
        digest[0],
        digest[1],
        digest[2],
        digest[3],
        digest[4],
        digest[5],
        digest[6],
        digest[7],
    ];
    assert(sighash@ =~= digest@.subrange(0, 8));
    sighash
}

/// The `execute` instruction for `hook_program`: the accounts passed on
/// read-only, and the data of the selector followed by the amount.
pub fn execute(accounts: &Vec<AccountInfoLike>, hook_program: Pubkey, amount: u64) -> (r: Instruction)
    ensures
        r.program_id == hook_program,
        r.accounts@ == accounts@.map_values(|a: AccountInfoLike| readonly_meta(a)),
        r.data@ == execute_data(amount),
        r.data@.len() == 16,
        u64_from_le(r.data@.subrange(8, 16)) == amount,
{
    proof {
        lemma_decoded_le_bytes(amount);
    }
    let discriminator = get_function_hash("global", "execute");
    let amount_bytes = u64_to_le_bytes(amount);
    let mut data: Vec<u8> = Vec::new();
    let mut k: usize = 0;
    while k < 8
        invariant
            0 <= k <= 8,
            data@ == discriminator@.subrange(0, k as int),
        decreases 8 - k,
    {
        data.push(discriminator[k]);
        assert(discriminator@.subrange(0, k + 1) =~= discriminator@.subrange(0, k as int).push(discriminator@[k as int]));
        k = k + 1;
    }
    k = 0;
    while k < 8
        invariant
            0 <= k <= 8,
            data@ == discriminator@ + amount_bytes@.subrange(0, k as int),
        decreases 8 - k,
    {
        data.push(amount_bytes[k]);
        assert(amount_bytes@.subrange(0, k + 1) =~= amount_bytes@.subrange(0, k as int).push(amount_bytes@[k as int]));
        k = k + 1;
    }
    assert(discriminator@.subrange(0, 8) =~= discriminator@);
    assert(amount_bytes@.subrange(0, 8) =~= amount_bytes@);
    let mut metas: Vec<AccountMeta> = Vec::new();
    let mut i: usize = 0;
    while i < accounts.len()
        invariant
            0 <= i <= accounts.len(),
            metas@ == accounts@.subrange(0, i as int).map_values(|a: AccountInfoLike| readonly_meta(a)),
        decreases accounts.len() - i,
    {
        let a = accounts[i];
        metas.push(AccountMeta { pubkey: a.key, is_signer: a.is_signer, is_writable: false });
        assert(accounts@.subrange(0, i + 1).map_values(|a: AccountInfoLike| readonly_meta(a)) =~= accounts@.subrange(
            0,
            i as int,
        ).map_values(|a: AccountInfoLike| readonly_meta(a)).push(readonly_meta(accounts@[i as int])));
        i = i + 1;
    }
    assert(accounts@.subrange(0, accounts@.len() as int) =~= accounts@);
    assert(data@.subrange(8, 16) =~= u64_le_bytes(amount));
    Instruction { program_id: hook_program, accounts: metas, data }
}

/// Whether an entry's program is on the whitelist `allowed`.
pub open spec fn entry_allowed(allowed: Seq<Pubkey>) -> spec_fn(HookEntry) -> bool {
    |e: HookEntry| allowed.contains(e.program_id)
}

/// The registered entries whose program is still on the global whitelist, in
/// order: those that run on a transfer.
pub open spec fn allowed_entries(entries: Seq<HookEntry>, allowed: Seq<Pubkey>) -> Seq<HookEntry> {
    entries.filter(entry_allowed(allowed))
}

/// An entry runs on a transfer exactly when it is registered and its program
/// is on the whitelist.
pub proof fn lemma_allowed_entries_members(entries: Seq<HookEntry>, allowed: Seq<Pubkey>, e: HookEntry)
    ensures
        allowed_entries(entries, allowed).contains(e) <==> (entries.contains(e) && allowed.contains(e.program_id)),
{
    broadcast use vstd::seq_lib::group_filter_ensures;
    let f = entry_allowed(allowed);
    if entries.contains(e) && allowed.contains(e.program_id) {
        let k = choose|k: int| 0 <= k < entries.len() && entries[k] == e;
        entries.lemma_filter_contains(f, k);
    }
    if allowed_entries(entries, allowed).contains(e) {
        entries.lemma_filter_contains_rev(f, e);
    }
}

/// The `execute` instructions of a transfer of `amount`: for each registered
/// hook program still on the global whitelist, in order, one with the
/// accounts of its first entry.
pub fn handler(ctx: &OnTransferCtx, amount: u64) -> (r: Vec<Instruction>)
    ensures
        r@.len() == allowed_entries(
            ctx.dispatcher_account.hook_entries@,
            ctx.global_dispatcher_config_account.allowed_hook_programs@,
        ).len(),
        forall|i: int| 0 <= i < r@.len() ==> {
            let e = #[trigger] allowed_entries(
                ctx.dispatcher_account.hook_entries@,
                ctx.global_dispatcher_config_account.allowed_hook_programs@,
            )[i];
            &&& r@[i].program_id == e.program_id
            &&& r@[i].accounts@ == first_entry_for(ctx.dispatcher_account.hook_entries@, e.program_id).additional_accounts@.map_values(
                |a: AccountInfoLike| readonly_meta(a),
            )
            &&& r@[i].data@ == execute_data(amount)
        },
        ctx.dispatcher_account.wf() ==> forall|i: int| 0 <= i < r@.len() ==> (#[trigger] r@[i]).accounts@
            == allowed_entries(
            ctx.dispatcher_account.hook_entries@,
            ctx.global_dispatcher_config_account.allowed_hook_programs@,
        )[i].additional_accounts@.map_values(|a: AccountInfoLike| readonly_meta(a)),
{
    let entries = &ctx.dispatcher_account.hook_entries;
    let allowed = &ctx.global_dispatcher_config_account.allowed_hook_programs;
    let ghost es = entries@;
    let ghost al = allowed@;
    let ghost f = entry_allowed(al);
    let mut plan: Vec<Instruction> = Vec::new();
    let mut i: usize = 0;
    while i < entries.len()
        invariant
            es == entries@,
            al == allowed@,
            f == entry_allowed(al),
            0 <= i <= entries.len(),
            plan@.len() == allowed_entries(es.subrange(0, i as int), al).len(),
            forall|j: int| 0 <= j < plan@.len() ==> {
                let e = #[trigger] allowed_entries(es.subrange(0, i as int), al)[j];
                &&& plan@[j].program_id == e.program_id
                &&& plan@[j].accounts@ == first_entry_for(es, e.program_id).additional_accounts@.map_values(
                    |a: AccountInfoLike| readonly_meta(a),
                )
                &&& plan@[j].data@ == execute_data(amount)
            },
        decreases entries.len() - i,
    {
        let ghost before = es.subrange(0, i as int);
        proof {
            assert(es.subrange(0, i + 1) =~= before.push(es[i as int]));
            before.lemma_filter_push(es[i as int], f);
        }
        let hook_program = entries[i].program_id;
        if contains_key(allowed, &hook_program) {
            proof {
                lemma_first_index_of(program_ids(es), hook_program);
                assert(program_ids(es)[i as int] == hook_program);
            }
            let found = entry_position(entries, &hook_program);
            let pos = match found {
                Some(p) => p,
                None => {
                    proof {
                        assert(program_ids(es).contains(hook_program));
                    }
                    i
                },
            };
            let instruction = execute(&entries[pos].additional_accounts, hook_program, amount);
            plan.push(instruction);
        }
        i = i + 1;
    }
    proof {
        assert(es.subrange(0, es.len() as int) =~= es);
        if ctx.dispatcher_account.wf() {
            let kept = allowed_entries(es, al);
            assert forall|i: int| 0 <= i < kept.len() implies first_entry_for(es, kept[i].program_id) == kept[i] by {
                assert(kept.contains(kept[i]));
                lemma_allowed_entries_members(es, al, kept[i]);
                let k = choose|k: int| 0 <= k < es.len() && es[k] == kept[i];
                assert(program_ids(es)[k] == es[k].program_id);
                lemma_first_index_unique(program_ids(es), k);
            }
        }
    }
    plan
}

} // verus!
