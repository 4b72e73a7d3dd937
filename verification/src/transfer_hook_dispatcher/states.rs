//! The dispatcher's accounts.
use crate::pubkey::{first_index_of, lemma_first_index_of, no_duplicates, Pubkey};
use vstd::prelude::*;

verus! {

/// The most hook programs that the global whitelist, or one dispatcher, holds.
pub const MAX_HOOK_PROGRAMS: usize = 20;

/// An account that a hook program is invoked with.
#[derive(Clone, Copy, Debug)]
pub struct AccountInfoLike {
    pub key: Pubkey,
    pub is_signer: bool,
    pub is_writable: bool,
}

/// A registered hook program and the accounts it is invoked with.
pub struct HookEntry {
    pub program_id: Pubkey,
    pub additional_accounts: Vec<AccountInfoLike>,
}

/// A dispatcher (one per mint): the hook programs that run on each transfer,
/// and the authority that manages them.
pub struct DispatcherAccount {
    pub hook_entries: Vec<HookEntry>,
    pub authority: Pubkey,
}

/// The program-wide whitelist of hook programs that a dispatcher may register,
/// and the authority that manages it.
pub struct GlobalDispatcherConfigAccount {
    pub allowed_hook_programs: Vec<Pubkey>,
    pub authority: Pubkey,
}

/// The program ids of a list of hook entries, in order.
pub open spec fn program_ids(entries: Seq<HookEntry>) -> Seq<Pubkey> {
    entries.map_values(|e: HookEntry| e.program_id)
}

/// The index of the first entry for `program_id`.
pub fn entry_position(entries: &Vec<HookEntry>, program_id: &Pubkey) -> (r: Option<usize>)
    ensures
        r matches Some(i) ==> first_index_of(program_ids(entries@), *program_id) == Some(i as int),
        r is None ==> first_index_of(program_ids(entries@), *program_id) is None,
{
    let ghost ids = program_ids(entries@);
    proof {
        lemma_first_index_of(ids, *program_id);
    }
    let mut i: usize = 0;
    while i < entries.len()
        invariant
            ids == program_ids(entries@),
            ids.len() == entries@.len(),
            0 <= i <= entries.len(),
            forall|j: int| 0 <= j < i ==> ids[j] != *program_id,
            first_index_of(ids, *program_id) is None <==> !ids.contains(*program_id),
            first_index_of(ids, *program_id) matches Some(f) ==> {
                &&& 0 <= f < ids.len()
                &&& ids[f] == *program_id
                &&& forall|j: int| 0 <= j < f ==> ids[j] != *program_id
            },
        decreases entries.len() - i,
    {
        assert(ids[i as int] == entries@[i as int].program_id);
        if entries[i].program_id.key_eq(program_id) {
            return Some(i);
        }
        i = i + 1;
    }
    None
}

impl DispatcherAccount {
    /// No program is registered twice, and at most twenty are.
    pub open spec fn wf(&self) -> bool {
        &&& no_duplicates(program_ids(self.hook_entries@))
        &&& self.hook_entries@.len() <= MAX_HOOK_PROGRAMS
    }
}

impl GlobalDispatcherConfigAccount {
    /// No program is allowed twice, and at most twenty are.
    pub open spec fn wf(&self) -> bool {
        &&& no_duplicates(self.allowed_hook_programs@)
        &&& self.allowed_hook_programs@.len() <= MAX_HOOK_PROGRAMS
    }
}

} // verus!
