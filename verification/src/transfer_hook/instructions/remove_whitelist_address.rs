//! Removing an address from the whitelist.
use crate::pubkey::{first_index_of, lemma_first_index_of, no_duplicates, position_of, Pubkey};
use crate::transfer_hook::errors::ErrorCode;
use crate::transfer_hook::states::Whitelist;
use vstd::prelude::*;

verus! {

/// Accounts of the instruction: the whitelist and its authority, who signs.
pub struct RemoveWhitelistAddress {
    pub whitelist: Whitelist,
    pub authority: Pubkey,
}

/// The list after removing `a` from `s`, and the instruction's outcome: the first
/// occurrence of `a` is replaced by the last element, which leaves its place.
pub open spec fn remove_whitelist_address_step(s: Seq<Pubkey>, a: Pubkey) -> (Seq<Pubkey>, Result<(), ErrorCode>) {
    match first_index_of(s, a) {
        Some(i) => (s.update(i, s.last()).drop_last(), Ok(())),
        None => (s, Err(ErrorCode::AddressNotWhitelisted)),
    }
}

/// Removing one element by swapping the last one into its place keeps a list
/// free of duplicates and takes exactly that element out of its set of members.
pub proof fn lemma_swap_remove_members(s: Seq<Pubkey>, i: int)
    requires
        no_duplicates(s),
        0 <= i < s.len(),
    ensures
        no_duplicates(s.update(i, s.last()).drop_last()),
        forall|x: Pubkey| s.update(i, s.last()).drop_last().contains(x) <==> (s.contains(x) && x != s[i]),
{
    let t = s.update(i, s.last()).drop_last();
    assert forall|x: Pubkey| t.contains(x) <==> (s.contains(x) && x != s[i]) by {
        if t.contains(x) {
            let j = choose|j: int| 0 <= j < t.len() && t[j] == x;
            if j == i {
                assert(x == s[s.len() - 1]);
            } else {
                assert(x == s[j]);
            }
        }
        if s.contains(x) && x != s[i] {
            let j = choose|j: int| 0 <= j < s.len() && s[j] == x;
            if j == s.len() - 1 {
                assert(t[i] == x);
            } else {
                assert(t[j] == x);
            }
        }
    }
}

/// Removes the first occurrence of `address_to_remove`, moving the last address into its place.
pub fn handler(ctx: &mut RemoveWhitelistAddress, address_to_remove: Pubkey) -> (r: Result<(), ErrorCode>)
    ensures
        (final(ctx).whitelist.addresses@, r) == remove_whitelist_address_step(old(ctx).whitelist.addresses@, address_to_remove),
        final(ctx).whitelist.authority == old(ctx).whitelist.authority,
        final(ctx).authority == old(ctx).authority,
        old(ctx).whitelist.wf() ==> final(ctx).whitelist.wf(),
        old(ctx).whitelist.wf() ==> forall|x: Pubkey|
            final(ctx).whitelist.addresses@.contains(x) <==> (old(ctx).whitelist.addresses@.contains(x) && x != address_to_remove),
{
    proof {
        lemma_first_index_of(ctx.whitelist.addresses@, address_to_remove);
    }
    match position_of(&ctx.whitelist.addresses, &address_to_remove) {
        Some(index) => {
            proof {
                if ctx.whitelist.wf() {
                    lemma_swap_remove_members(ctx.whitelist.addresses@, index as int);
                }
            }
            ctx.whitelist.addresses.swap_remove(index);
            Ok(())
        },
        None => Err(ErrorCode::AddressNotWhitelisted),
    }
}

} // verus!
