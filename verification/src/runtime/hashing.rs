//! SHA-256, from the runtime's hashing library, and the 8-byte selectors
//! derived from it.
use vstd::prelude::*;
use vstd::utf8::encode_utf8;

verus! {

/// The SHA-256 digest of `data`.
pub uninterp spec fn sha256_digest(data: Seq<u8>) -> Seq<u8>;

/// The 8-byte selector of the instruction `name` in `namespace`: the first
/// eight bytes of the SHA-256 digest of `namespace:name`.
pub open spec fn function_hash(namespace: Seq<char>, name: Seq<char>) -> Seq<u8> {
    sha256_digest(encode_utf8(namespace) + seq![58u8] + encode_utf8(name)).subrange(0, 8)
}

/// Calls `anchor_lang::solana_program::hash::hash`, which returns the SHA-256
/// digest of `data` as 32 bytes. The contract claims only that the result is
/// the digest of exactly these bytes.
#[verifier::external_body]
pub(crate) fn sha256(data: &[u8]) -> (r: [u8; 32])
    ensures
        r@ == sha256_digest(data@),
{
    anchor_lang::solana_program::hash::hash(data).to_bytes()
}

} // verus!
