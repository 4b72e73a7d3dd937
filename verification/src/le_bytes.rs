//! Little-endian encoding of 64-bit integers.
use vstd::prelude::*;

verus! {

/// The little-endian bytes of `x`.
pub open spec fn u64_le_bytes(x: u64) -> Seq<u8> {
    seq![
        x as u8,
        (x >> 8u64) as u8,
        (x >> 16u64) as u8,
        (x >> 24u64) as u8,
        (x >> 32u64) as u8,
        (x >> 40u64) as u8,
        (x >> 48u64) as u8,
        (x >> 56u64) as u8,
    ]
}

/// The integer whose little-endian bytes are `b0` to `b7`.
pub open spec fn u64_from_le_parts(b0: u8, b1: u8, b2: u8, b3: u8, b4: u8, b5: u8, b6: u8, b7: u8) -> u64 {
    (b0 as u64) | ((b1 as u64) << 8u64) | ((b2 as u64) << 16u64) | ((b3 as u64) << 24u64) | ((b4 as u64) << 32u64)
        | ((b5 as u64) << 40u64) | ((b6 as u64) << 48u64) | ((b7 as u64) << 56u64)
}

/// The integer whose little-endian bytes are the first eight of `b`.
pub open spec fn u64_from_le(b: Seq<u8>) -> u64 {
    u64_from_le_parts(b[0], b[1], b[2], b[3], b[4], b[5], b[6], b[7])
}

/// Decoding eight bytes and encoding the result gives the bytes back.
pub proof fn lemma_le_bytes_of_decoded(b: Seq<u8>)
    requires
        b.len() == 8,
    ensures
        u64_le_bytes(u64_from_le(b)) == b,
{
    let (b0, b1, b2, b3, b4, b5, b6, b7) = (b[0], b[1], b[2], b[3], b[4], b[5], b[6], b[7]);
    let x = u64_from_le_parts(b0, b1, b2, b3, b4, b5, b6, b7);
    assert(x as u8 == b0 && (x >> 8u64) as u8 == b1 && (x >> 16u64) as u8 == b2 && (x >> 24u64) as u8 == b3
        && (x >> 32u64) as u8 == b4 && (x >> 40u64) as u8 == b5 && (x >> 48u64) as u8 == b6 && (x >> 56u64) as u8
        == b7) by (bit_vector)
        requires
            x == (b0 as u64) | ((b1 as u64) << 8u64) | ((b2 as u64) << 16u64) | ((b3 as u64) << 24u64) | ((b4 as u64)
                << 32u64) | ((b5 as u64) << 40u64) | ((b6 as u64) << 48u64) | ((b7 as u64) << 56u64),
    ;
    assert(u64_le_bytes(x) =~= b);
}

/// Encoding an integer and decoding the bytes gives the integer back.
pub proof fn lemma_decoded_le_bytes(x: u64)
    ensures
        u64_from_le(u64_le_bytes(x)) == x,
{
    let b = u64_le_bytes(x);
    assert(u64_from_le_parts(
        x as u8,
        (x >> 8u64) as u8,
        (x >> 16u64) as u8,
        (x >> 24u64) as u8,
        (x >> 32u64) as u8,
        (x >> 40u64) as u8,
        (x >> 48u64) as u8,
        (x >> 56u64) as u8,
    ) == x) by (bit_vector);
}

/// The little-endian bytes of `x`.
pub fn u64_to_le_bytes(x: u64) -> (r: [u8; 8])
    ensures
        r@ == u64_le_bytes(x),
{
    let r: [u8; 8] = [
        x as u8,
        (x >> 8u64) as u8,
        (x >> 16u64) as u8,
        (x >> 24u64) as u8,
        (x >> 32u64) as u8,
        (x >> 40u64) as u8,
        (x >> 48u64) as u8,
        (x >> 56u64) as u8,
    ];
    assert(r@ =~= u64_le_bytes(x));
    r
}

} // verus!
