//! Encoding of the moving factor and dynamic truncation of a keyed hash.
use vstd::prelude::*;

verus! {

/// The eight bytes of `n`, most significant first.
pub open spec fn be_bytes(n: u64) -> Seq<u8> {
    seq![
        (n >> 56u64) as u8,
        (n >> 48u64) as u8,
        (n >> 40u64) as u8,
        (n >> 32u64) as u8,
        (n >> 24u64) as u8,
        (n >> 16u64) as u8,
        (n >> 8u64) as u8,
        n as u8,
    ]
}

/// Encodes a moving factor as the message that is handed to the keyed hash.
pub fn counter_bytes(n: u64) -> (r: Vec<u8>)
    ensures
        r@ == be_bytes(n),
{
    let r = vec![
        (n >> 56u64) as u8,
        (n >> 48u64) as u8,
        (n >> 40u64) as u8,
        (n >> 32u64) as u8,
        (n >> 24u64) as u8,
        (n >> 16u64) as u8,
        (n >> 8u64) as u8,
        n as u8,
    ];
    assert(r@ =~= be_bytes(n));
    r
}

/// The offset that dynamic truncation reads from: the low four bits of the last byte.
pub open spec fn trunc_offset(h: Seq<u8>) -> int {
    (h.last() % 16) as int
}

/// Dynamic truncation: the four bytes at the offset, read big-endian, without
/// the most significant bit.
pub open spec fn truncated(h: Seq<u8>) -> nat {
    let o = trunc_offset(h);
    ((h[o] % 128) as nat) * 16777216 + (h[o + 1] as nat) * 65536 + (h[o + 2] as nat) * 256
        + (h[o + 3] as nat)
}

/// A truncated value has 31 bits.
pub proof fn lemma_truncated_bound(h: Seq<u8>)
    ensures
        truncated(h) < 0x8000_0000,
{
}

proof fn lemma_low_bits(b: u8)
    ensures
        b & 0xf == b % 16,
        b & 0x7f == b % 128,
{
    assert(b & 0xf == b % 16) by (bit_vector);
    assert(b & 0x7f == b % 128) by (bit_vector);
}

/// Dynamic truncation of a keyed-hash output of at least 20 bytes.
pub fn dynamic_trunc(hash: &[u8]) -> (r: u32)
    requires
        hash@.len() >= 20,
    ensures
        r as nat == truncated(hash@),
{
    let last = hash[hash.len() - 1];
    proof {
        lemma_low_bits(last);
    }
    let o = (last & 0xf) as usize;
    let first = hash[o];
    proof {
        lemma_low_bits(first);
    }
    ((first & 0x7f) as u32) * 16777216 + (hash[o + 1] as u32) * 65536 + (hash[o + 2] as u32) * 256 + (hash[o
        + 3] as u32)
}

} // verus!
