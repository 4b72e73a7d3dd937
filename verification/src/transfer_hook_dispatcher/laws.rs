//! Properties of the dispatcher that span several instructions.
use crate::pubkey::{first_index_of, lemma_first_index_of, lemma_remove_keeps_no_duplicates, no_duplicates, Pubkey};
use crate::transfer_hook_dispatcher::errors::ErrorCode;
use crate::transfer_hook_dispatcher::instructions::add_allowed_hook_program::add_allowed_hook_program_step;
use crate::transfer_hook_dispatcher::instructions::on_transfer::{allowed_entries, lemma_allowed_entries_members};
use crate::transfer_hook_dispatcher::instructions::register_hook_program::register_hook_program_step;
use crate::transfer_hook_dispatcher::instructions::remove_allowed_hook_program::remove_allowed_hook_program_step;
use crate::transfer_hook_dispatcher::instructions::unregister_hook_program::unregister_hook_program_step;
use crate::transfer_hook_dispatcher::states::{program_ids, AccountInfoLike, HookEntry, MAX_HOOK_PROGRAMS};
use vstd::prelude::*;

verus! {

/// Removing a hook program just added to the global whitelist gives back the
/// whitelist as it was.
pub proof fn law_remove_allowed_undoes_add(allowed: Seq<Pubkey>, authority: Pubkey, hook: Pubkey)
    requires
        add_allowed_hook_program_step(allowed, authority, authority, hook).1 is Ok,
    ensures
        remove_allowed_hook_program_step(add_allowed_hook_program_step(allowed, authority, authority, hook).0, authority, authority, hook)
            == (allowed, Ok::<(), ErrorCode>(())),
{
    let t = allowed.push(hook);
    assert(t[allowed.len() as int] == hook);
    lemma_first_index_of(t, hook);
    assert forall|j: int| 0 <= j < allowed.len() implies t[j] != hook by {
        assert(t[j] == allowed[j]);
    }
    assert(first_index_of(t, hook) == Some(allowed.len() as int));
    assert(t.remove(allowed.len() as int) =~= allowed);
}

/// Unregistering a hook program just registered gives back the dispatcher's
/// entries as they were.
pub proof fn law_unregister_undoes_register(
    entries: Seq<HookEntry>,
    authority: Pubkey,
    allowed: Seq<Pubkey>,
    hook: Pubkey,
    additional_accounts: Vec<AccountInfoLike>,
)
    requires
        register_hook_program_step(entries, authority, allowed, authority, hook, additional_accounts).1 is Ok,
    ensures
        unregister_hook_program_step(
            register_hook_program_step(entries, authority, allowed, authority, hook, additional_accounts).0,
            authority,
            authority,
            hook,
        ) == (entries, Ok::<(), ErrorCode>(())),
{
    let t = entries.push(HookEntry { program_id: hook, additional_accounts });
    let ids = program_ids(t);
    assert(ids =~= program_ids(entries).push(hook));
    assert(ids[entries.len() as int] == hook);
    lemma_first_index_of(ids, hook);
    assert forall|j: int| 0 <= j < entries.len() implies ids[j] != hook by {
        assert(ids[j] == program_ids(entries)[j]);
    }
    assert(first_index_of(ids, hook) == Some(entries.len() as int));
    assert(t.remove(entries.len() as int) =~= entries);
}

/// A request signed by anyone but the account's authority is refused as
/// unauthorized and changes nothing, whatever it asks.
pub proof fn law_only_the_authority_changes_anything(
    allowed: Seq<Pubkey>,
    entries: Seq<HookEntry>,
    authority: Pubkey,
    signer: Pubkey,
    hook: Pubkey,
    additional_accounts: Vec<AccountInfoLike>,
)
    requires
        signer != authority,
    ensures
        add_allowed_hook_program_step(allowed, authority, signer, hook) == (allowed, Err::<(), ErrorCode>(ErrorCode::Unauthorized)),
        remove_allowed_hook_program_step(allowed, authority, signer, hook) == (allowed, Err::<(), ErrorCode>(ErrorCode::Unauthorized)),
        register_hook_program_step(entries, authority, allowed, signer, hook, additional_accounts) == (
            entries,
            Err::<(), ErrorCode>(ErrorCode::Unauthorized),
        ),
        unregister_hook_program_step(entries, authority, signer, hook) == (entries, Err::<(), ErrorCode>(ErrorCode::Unauthorized)),
{
}

/// Only a hook program on the global whitelist can be registered, and a
/// registered program is then among the dispatcher's entries.
pub proof fn law_registered_hooks_are_allowed(
    entries: Seq<HookEntry>,
    authority: Pubkey,
    allowed: Seq<Pubkey>,
    signer: Pubkey,
    hook: Pubkey,
    additional_accounts: Vec<AccountInfoLike>,
)
    requires
        register_hook_program_step(entries, authority, allowed, signer, hook, additional_accounts).1 is Ok,
    ensures
        allowed.contains(hook),
        program_ids(register_hook_program_step(entries, authority, allowed, signer, hook, additional_accounts).0).contains(hook),
{
    let t = entries.push(HookEntry { program_id: hook, additional_accounts });
    assert(program_ids(t)[entries.len() as int] == hook);
}

/// Every program of `entries` is on the whitelist `allowed`.
pub open spec fn all_hooks_allowed(entries: Seq<HookEntry>, allowed: Seq<Pubkey>) -> bool {
    forall|i: int| 0 <= i < entries.len() ==> allowed.contains(#[trigger] entries[i].program_id)
}

/// Registering and unregistering keep every registered program on the global
/// whitelist, as long as the whitelist itself does not lose it.
pub proof fn law_registrations_stay_allowed(
    entries: Seq<HookEntry>,
    authority: Pubkey,
    allowed: Seq<Pubkey>,
    signer: Pubkey,
    hook: Pubkey,
    additional_accounts: Vec<AccountInfoLike>,
)
    requires
        all_hooks_allowed(entries, allowed),
    ensures
        all_hooks_allowed(register_hook_program_step(entries, authority, allowed, signer, hook, additional_accounts).0, allowed),
        all_hooks_allowed(unregister_hook_program_step(entries, authority, signer, hook).0, allowed),
{
    let after = unregister_hook_program_step(entries, authority, signer, hook).0;
    if authority == signer {
        if let Some(i) = crate::pubkey::first_index_of(program_ids(entries), hook) {
            crate::pubkey::lemma_first_index_of(program_ids(entries), hook);
            assert forall|j: int| 0 <= j < after.len() implies allowed.contains(#[trigger] after[j].program_id) by {
                if j < i {
                    assert(after[j] == entries[j]);
                } else {
                    assert(after[j] == entries[j + 1]);
                }
            }
        }
    }
}

/// Only whitelisted hooks are used: an entry runs on a transfer exactly when
/// it is registered and its program is on the global whitelist.
pub proof fn law_only_whitelisted_hooks_run(entries: Seq<HookEntry>, allowed: Seq<Pubkey>, e: HookEntry)
    ensures
        allowed_entries(entries, allowed).contains(e) <==> (entries.contains(e) && allowed.contains(e.program_id)),
{
    lemma_allowed_entries_members(entries, allowed, e);
}

/// Once a hook program leaves the global whitelist, no transfer runs it, even
/// where a dispatcher still has it registered.
pub proof fn law_removed_hook_no_longer_runs(
    entries: Seq<HookEntry>,
    allowed: Seq<Pubkey>,
    authority: Pubkey,
    hook: Pubkey,
)
    requires
        no_duplicates(allowed),
        remove_allowed_hook_program_step(allowed, authority, authority, hook).1 is Ok,
    ensures
        forall|i: int|
            0 <= i < allowed_entries(entries, remove_allowed_hook_program_step(allowed, authority, authority, hook).0).len()
                ==> (#[trigger] allowed_entries(
                entries,
                remove_allowed_hook_program_step(allowed, authority, authority, hook).0,
            )[i]).program_id != hook,
{
    let after = remove_allowed_hook_program_step(allowed, authority, authority, hook).0;
    lemma_first_index_of(allowed, hook);
    let k = first_index_of(allowed, hook)->Some_0;
    lemma_remove_keeps_no_duplicates(allowed, k);
    let kept = allowed_entries(entries, after);
    assert forall|i: int| 0 <= i < kept.len() implies (#[trigger] kept[i]).program_id != hook by {
        assert(kept.contains(kept[i]));
        lemma_allowed_entries_members(entries, after, kept[i]);
    }
}

/// Registration by the dispatcher's authority succeeds exactly when the hook
/// is on the global whitelist, no entry has that address, and the dispatcher
/// holds fewer than `MAX_HOOK_PROGRAMS` entries, whatever the whitelist's own
/// length; it then appends the new entry and nothing else.
pub proof fn law_register_succeeds_when_allowed_new_and_not_full(
    entries: Seq<HookEntry>,
    authority: Pubkey,
    allowed: Seq<Pubkey>,
    hook: Pubkey,
    additional_accounts: Vec<AccountInfoLike>,
)
    ensures
        register_hook_program_step(entries, authority, allowed, authority, hook, additional_accounts).1 is Ok
            <==> (allowed.contains(hook) && (forall|k: int| 0 <= k < entries.len() ==> entries[k].program_id != hook)
            && entries.len() < MAX_HOOK_PROGRAMS),
        (allowed.contains(hook) && (forall|k: int| 0 <= k < entries.len() ==> entries[k].program_id != hook)
            && entries.len() < MAX_HOOK_PROGRAMS) ==> register_hook_program_step(
            entries,
            authority,
            allowed,
            authority,
            hook,
            additional_accounts,
        ) == (entries.push(HookEntry { program_id: hook, additional_accounts }), Ok::<(), ErrorCode>(())),
        register_hook_program_step(entries, authority, allowed, authority, hook, additional_accounts).1 is Err
            ==> register_hook_program_step(entries, authority, allowed, authority, hook, additional_accounts).0
            == entries,
{
    let ids = program_ids(entries);
    if ids.contains(hook) {
        let k = choose|k: int| 0 <= k < ids.len() && ids[k] == hook;
        assert(entries[k].program_id == hook);
    }
    if exists|k: int| 0 <= k < entries.len() && entries[k].program_id == hook {
        let k = choose|k: int| 0 <= k < entries.len() && entries[k].program_id == hook;
        assert(ids[k] == hook);
    }
}

/// Adding to the global whitelist by its authority succeeds exactly when the
/// whitelist holds fewer than `MAX_HOOK_PROGRAMS` programs, none of them with
/// the hook's address; it then appends the hook and nothing else.
pub proof fn law_add_allowed_succeeds_when_new_and_not_full(allowed: Seq<Pubkey>, authority: Pubkey, hook: Pubkey)
    ensures
        add_allowed_hook_program_step(allowed, authority, authority, hook).1 is Ok <==> (allowed.len()
            < MAX_HOOK_PROGRAMS && (forall|k: int| 0 <= k < allowed.len() ==> allowed[k] != hook)),
        (allowed.len() < MAX_HOOK_PROGRAMS && (forall|k: int| 0 <= k < allowed.len() ==> allowed[k] != hook))
            ==> add_allowed_hook_program_step(allowed, authority, authority, hook) == (allowed.push(hook), Ok::<
            (),
            ErrorCode,
        >(())),
        add_allowed_hook_program_step(allowed, authority, authority, hook).1 is Err
            ==> add_allowed_hook_program_step(allowed, authority, authority, hook).0 == allowed,
{
}

/// Removing from the global whitelist by its authority succeeds exactly when
/// the hook is on it, and then takes out its first occurrence, wherever it
/// stands, keeping the others in order.
pub proof fn law_remove_allowed_takes_out_the_first_occurrence(
    allowed: Seq<Pubkey>,
    authority: Pubkey,
    hook: Pubkey,
    i: int,
)
    ensures
        remove_allowed_hook_program_step(allowed, authority, authority, hook).1 is Ok <==> allowed.contains(hook),
        !allowed.contains(hook) ==> remove_allowed_hook_program_step(allowed, authority, authority, hook) == (
            allowed,
            Err::<(), ErrorCode>(ErrorCode::HookNotFound),
        ),
        (0 <= i < allowed.len() && allowed[i] == hook && (forall|j: int| 0 <= j < i ==> allowed[j] != hook))
            ==> remove_allowed_hook_program_step(allowed, authority, authority, hook) == (allowed.remove(i), Ok::<
            (),
            ErrorCode,
        >(())),
{
    lemma_first_index_of(allowed, hook);
    if 0 <= i < allowed.len() && allowed[i] == hook && (forall|j: int| 0 <= j < i ==> allowed[j] != hook) {
        let f = first_index_of(allowed, hook)->Some_0;
        assert(f == i) by {
            if f < i {
                assert(allowed[f] != hook);
            }
            if i < f {
                assert(allowed[i] != hook);
            }
        }
    }
}

/// Unregistering by the dispatcher's authority succeeds exactly when some entry
/// has the hook's address, and then takes out the first such entry, wherever
/// it stands, keeping the others in order.
pub proof fn law_unregister_takes_out_the_first_entry(
    entries: Seq<HookEntry>,
    authority: Pubkey,
    hook: Pubkey,
    i: int,
)
    ensures
        unregister_hook_program_step(entries, authority, authority, hook).1 is Ok <==> (exists|k: int|
            0 <= k < entries.len() && #[trigger] entries[k].program_id == hook),
        (0 <= i < entries.len() && entries[i].program_id == hook && (forall|j: int|
            0 <= j < i ==> entries[j].program_id != hook)) ==> unregister_hook_program_step(
            entries,
            authority,
            authority,
            hook,
        ) == (entries.remove(i), Ok::<(), ErrorCode>(())),
        unregister_hook_program_step(entries, authority, authority, hook).1 is Err
            ==> unregister_hook_program_step(entries, authority, authority, hook).0 == entries,
{
    let ids = program_ids(entries);
    lemma_first_index_of(ids, hook);
    if ids.contains(hook) {
        let k = choose|k: int| 0 <= k < ids.len() && ids[k] == hook;
        assert(entries[k].program_id == hook);
    }
    if exists|k: int| 0 <= k < entries.len() && #[trigger] entries[k].program_id == hook {
        let k = choose|k: int| 0 <= k < entries.len() && #[trigger] entries[k].program_id == hook;
        assert(ids[k] == hook);
    }
    if 0 <= i < entries.len() && entries[i].program_id == hook && (forall|j: int|
        0 <= j < i ==> entries[j].program_id != hook) {
        assert(ids[i] == hook);
        let f = first_index_of(ids, hook)->Some_0;
        assert(f == i) by {
            if f < i {
                assert(entries[f].program_id != hook);
                assert(ids[f] == entries[f].program_id);
            }
            if i < f {
                assert(ids[i] != hook);
            }
        }
    }
}

} // verus!
