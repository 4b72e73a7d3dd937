//! Account addresses and the list operations that the programs perform on them.
use vstd::prelude::*;

verus! {

/// A 32-byte account address.
#[derive(Clone, Copy, Debug)]
pub struct Pubkey {
    pub bytes: [u8; 32],
}

impl Pubkey {
    /// Builds an address from its 32 bytes.
    pub fn new_from_array(bytes: [u8; 32]) -> (r: Pubkey)
        ensures
            r.bytes == bytes,
    {
        Pubkey { bytes }
    }

    /// The 32 bytes of the address.
    pub fn to_bytes(&self) -> (r: [u8; 32])
        ensures
            r == self.bytes,
    {
        self.bytes
    }

    /// Compares two addresses byte by byte.
    pub fn key_eq(&self, other: &Pubkey) -> (r: bool)
        ensures
            r == (*self == *other),
    {
        let mut i: usize = 0;
        while i < 32
            invariant
                0 <= i <= 32,
                forall|j: int| 0 <= j < i ==> self.bytes[j] == other.bytes[j],
            decreases 32 - i,
        {
            if self.bytes[i] != other.bytes[i] {
                return false;
            }
            i = i + 1;
        }
        assert(self.bytes =~= other.bytes);
        true
    }
}

/// No address occurs twice in `s`.
pub open spec fn no_duplicates(s: Seq<Pubkey>) -> bool {
    forall|i: int, j: int| 0 <= i < j < s.len() ==> s[i] != s[j]
}

/// The index of the first occurrence of `k` in `s`, where there is one.
pub open spec fn first_index_of(s: Seq<Pubkey>, k: Pubkey) -> Option<int>
    decreases s.len(),
{
    if s.len() == 0 {
        None
    } else if s.last() == k && !s.drop_last().contains(k) {
        Some(s.len() - 1)
    } else {
        first_index_of(s.drop_last(), k)
    }
}

/// `first_index_of` is the least index that holds `k`.
pub proof fn lemma_first_index_of(s: Seq<Pubkey>, k: Pubkey)
    ensures
        first_index_of(s, k) is None <==> !s.contains(k),
        first_index_of(s, k) matches Some(i) ==> {
            &&& 0 <= i < s.len()
            &&& s[i] == k
            &&& forall|j: int| 0 <= j < i ==> s[j] != k
        },
    decreases s.len(),
{
    if s.len() > 0 {
        lemma_first_index_of(s.drop_last(), k);
        if s.last() == k && !s.drop_last().contains(k) {
            assert forall|j: int| 0 <= j < s.len() - 1 implies s[j] != k by {
                assert(s.drop_last()[j] == s[j]);
            }
        } else {
            if s.contains(k) && s.last() != k {
                let w = choose|w: int| 0 <= w < s.len() && s[w] == k;
                assert(s.drop_last()[w] == k);
            }
            match first_index_of(s, k) {
                Some(i) => {
                    assert(s.drop_last()[i] == s[i]);
                    assert forall|j: int| 0 <= j < i implies s[j] != k by {
                        assert(s.drop_last()[j] == s[j]);
                    }
                },
                None => {},
            }
        }
    }
}

/// In a list without duplicates, the first index of an element is its only index.
pub proof fn lemma_first_index_unique(s: Seq<Pubkey>, i: int)
    requires
        no_duplicates(s),
        0 <= i < s.len(),
    ensures
        first_index_of(s, s[i]) == Some(i),
{
    lemma_first_index_of(s, s[i]);
}

/// Removing the element at `i` keeps a list free of duplicates, and takes
/// exactly that element out of its members.
pub proof fn lemma_remove_keeps_no_duplicates(s: Seq<Pubkey>, i: int)
    requires
        no_duplicates(s),
        0 <= i < s.len(),
    ensures
        no_duplicates(s.remove(i)),
        forall|x: Pubkey| s.remove(i).contains(x) <==> (s.contains(x) && x != s[i]),
{
    let t = s.remove(i);
    assert forall|a: int, b: int| 0 <= a < b < t.len() implies t[a] != t[b] by {
        let sa = if a < i { a } else { a + 1 };
        let sb = if b < i { b } else { b + 1 };
        assert(t[a] == s[sa]);
        assert(t[b] == s[sb]);
    }
    assert forall|x: Pubkey| t.contains(x) <==> (s.contains(x) && x != s[i]) by {
        if t.contains(x) {
            let a = choose|a: int| 0 <= a < t.len() && t[a] == x;
            let sa = if a < i { a } else { a + 1 };
            assert(s[sa] == x);
        }
        if s.contains(x) && x != s[i] {
            let a = choose|a: int| 0 <= a < s.len() && s[a] == x;
            let ta = if a < i { a } else { a - 1 };
            assert(t[ta] == x);
        }
    }
}

/// Whether `k` occurs in `v`.
pub fn contains_key(v: &Vec<Pubkey>, k: &Pubkey) -> (r: bool)
    ensures
        r == v@.contains(*k),
{
    let mut i: usize = 0;
    while i < v.len()
        invariant
            0 <= i <= v.len(),
            forall|j: int| 0 <= j < i ==> v@[j] != *k,
        decreases v.len() - i,
    {
        if v[i].key_eq(k) {
            return true;
        }
        i = i + 1;
    }
    false
}

/// The index of the first occurrence of `k` in `v`.
pub fn position_of(v: &Vec<Pubkey>, k: &Pubkey) -> (r: Option<usize>)
    ensures
        r matches Some(i) ==> first_index_of(v@, *k) == Some(i as int),
        r is None ==> first_index_of(v@, *k) is None,
{
    proof {
        lemma_first_index_of(v@, *k);
    }
    let mut i: usize = 0;
    while i < v.len()
        invariant
            0 <= i <= v.len(),
            forall|j: int| 0 <= j < i ==> v@[j] != *k,
            first_index_of(v@, *k) is None <==> !v@.contains(*k),
            first_index_of(v@, *k) matches Some(f) ==> {
                &&& 0 <= f < v@.len()
                &&& v@[f] == *k
                &&& forall|j: int| 0 <= j < f ==> v@[j] != *k
            },
        decreases v.len() - i,
    {
        if v[i].key_eq(k) {
            return Some(i);
        }
        i = i + 1;
    }
    None
}

} // verus!
