//! Properties of the whitelist that span several instructions.
use crate::pubkey::{first_index_of, lemma_first_index_of, no_duplicates, Pubkey};
use crate::transfer_hook::errors::ErrorCode;
use crate::transfer_hook::instructions::add_whitelist_address::add_whitelist_address_step;
use crate::transfer_hook::instructions::remove_whitelist_address::{
    lemma_swap_remove_members, remove_whitelist_address_step,
};
use crate::transfer_hook::instructions::update_whitelist_addresses::update_whitelist_addresses_step;
use crate::transfer_hook::states::MAX_WHITELIST_ADDRESSES;
use vstd::prelude::*;

verus! {

/// Removing an address just added gives back the whitelist as it was.
pub proof fn law_remove_undoes_add(s: Seq<Pubkey>, a: Pubkey)
    requires
        !s.contains(a),
        s.len() < MAX_WHITELIST_ADDRESSES,
    ensures
        add_whitelist_address_step(s, a).1 is Ok,
        remove_whitelist_address_step(add_whitelist_address_step(s, a).0, a) == (s, Ok::<(), ErrorCode>(())),
{
    let t = s.push(a);
    assert(t[s.len() as int] == a);
    lemma_first_index_of(t, a);
    assert forall|j: int| 0 <= j < s.len() implies t[j] != a by {
        assert(t[j] == s[j]);
    }
    assert(first_index_of(t, a) == Some(s.len() as int));
    assert(t.update(s.len() as int, t.last()).drop_last() =~= s);
}

/// After an add, whether it succeeded or found the address already there, the
/// address is whitelisted (unless the whitelist was full and lacked it).
pub proof fn law_added_address_is_whitelisted(s: Seq<Pubkey>, a: Pubkey)
    requires
        s.contains(a) || s.len() < MAX_WHITELIST_ADDRESSES,
    ensures
        add_whitelist_address_step(s, a).0.contains(a),
{
    if !s.contains(a) {
        assert(s.push(a)[s.len() as int] == a);
    }
}

/// After a successful removal from a list without duplicates, the address is
/// no longer whitelisted and every other address keeps its standing.
pub proof fn law_removed_address_is_not_whitelisted(s: Seq<Pubkey>, a: Pubkey, x: Pubkey)
    requires
        no_duplicates(s),
    ensures
        remove_whitelist_address_step(s, a).1 is Ok <==> s.contains(a),
        !remove_whitelist_address_step(s, a).0.contains(a),
        x != a ==> (remove_whitelist_address_step(s, a).0.contains(x) <==> s.contains(x)),
{
    lemma_first_index_of(s, a);
    if let Some(i) = first_index_of(s, a) {
        lemma_swap_remove_members(s, i);
    }
}

/// An update succeeds exactly when no two of the new addresses are equal and
/// there are at most `MAX_WHITELIST_ADDRESSES` of them; the whitelist is then
/// exactly the new list, and on a refusal it is left as it was.
pub proof fn law_update_takes_any_distinct_list_that_fits(s: Seq<Pubkey>, new: Seq<Pubkey>)
    ensures
        update_whitelist_addresses_step(s, new).1 is Ok <==> ((forall|i: int, j: int|
            0 <= i < j < new.len() ==> new[i] != new[j]) && new.len() <= MAX_WHITELIST_ADDRESSES),
        ((forall|i: int, j: int| 0 <= i < j < new.len() ==> new[i] != new[j]) && new.len()
            <= MAX_WHITELIST_ADDRESSES) ==> update_whitelist_addresses_step(s, new) == (new, Ok::<(), ErrorCode>(())),
        update_whitelist_addresses_step(s, new).1 is Err ==> update_whitelist_addresses_step(s, new).0 == s,
{
}

/// An add succeeds exactly when no listed address equals the new one and the
/// list has room; the address is then appended, and on a refusal the list is
/// left as it was.
pub proof fn law_add_takes_any_new_address_while_there_is_room(s: Seq<Pubkey>, a: Pubkey)
    ensures
        add_whitelist_address_step(s, a).1 is Ok <==> ((forall|k: int| 0 <= k < s.len() ==> s[k] != a) && s.len()
            < MAX_WHITELIST_ADDRESSES),
        ((forall|k: int| 0 <= k < s.len() ==> s[k] != a) && s.len() < MAX_WHITELIST_ADDRESSES)
            ==> add_whitelist_address_step(s, a) == (s.push(a), Ok::<(), ErrorCode>(())),
        add_whitelist_address_step(s, a).1 is Err ==> add_whitelist_address_step(s, a).0 == s,
{
}

/// A removal succeeds exactly when the address is listed; its first occurrence,
/// wherever it stands, is then replaced by the last address, which leaves its
/// own place, and every other address stays where it was.
pub proof fn law_remove_swaps_out_the_first_occurrence(s: Seq<Pubkey>, a: Pubkey, i: int)
    ensures
        remove_whitelist_address_step(s, a).1 is Ok <==> s.contains(a),
        !s.contains(a) ==> remove_whitelist_address_step(s, a) == (s, Err::<(), ErrorCode>(ErrorCode::AddressNotWhitelisted)),
        (0 <= i < s.len() && s[i] == a && (forall|j: int| 0 <= j < i ==> s[j] != a)) ==> {
            let t = remove_whitelist_address_step(s, a).0;
            &&& remove_whitelist_address_step(s, a).1 is Ok
            &&& t.len() == s.len() - 1
            &&& i < s.len() - 1 ==> t[i] == s[s.len() - 1]
            &&& forall|k: int| 0 <= k < s.len() - 1 && k != i ==> t[k] == s[k]
        },
{
    lemma_first_index_of(s, a);
    if 0 <= i < s.len() && s[i] == a && (forall|j: int| 0 <= j < i ==> s[j] != a) {
        let f = first_index_of(s, a)->Some_0;
        assert(f == i) by {
            if f < i {
                assert(s[f] != a);
            }
            if i < f {
                assert(s[i] != a);
            }
        }
    }
}

} // verus!
