//! Canonical binary encoding of a validator-set snapshot.
//!
//! A snapshot is an ordered sequence of `(ValidatorId, FullIdentification)`
//! pairs. Its wire form follows the SCALE codec: a compact-encoded element
//! count, then each pair's fields as fixed-width little-endian integers, in
//! snapshot order. The encoding is a pure function of the snapshot value, so
//! any two honest nodes that derive the same snapshot publish byte-identical
//! entries.

use vstd::prelude::*;

use crate::identity::{FullIdentification, ValidatorId};

verus! {

/// The eight-byte little-endian encoding of a 64-bit integer.
pub open spec fn u64_le_bytes(x: u64) -> Seq<u8> {
    seq![
        (x % 256) as u8,
        ((x / 256) % 256) as u8,
        ((x / 65536) % 256) as u8,
        ((x / 16777216) % 256) as u8,
        ((x / 4294967296) % 256) as u8,
        ((x / 1099511627776) % 256) as u8,
        ((x / 281474976710656) % 256) as u8,
        ((x / 72057594037927936) % 256) as u8,
    ]
}

/// The SCALE compact encoding of a collection length `n` (`n < 2^32`):
/// the two low bits of the first byte select the width, the remaining bits
/// carry the value, little-endian.
pub open spec fn compact_len_bytes(n: nat) -> Seq<u8> {
    if n < 64 {
        seq![(n * 4) as u8]
    } else if n < 16384 {
        seq![((n * 4 + 1) % 256) as u8, ((n * 4 + 1) / 256) as u8]
    } else if n < 1073741824 {
        seq![
            ((n * 4 + 2) % 256) as u8,
            (((n * 4 + 2) / 256) % 256) as u8,
            (((n * 4 + 2) / 65536) % 256) as u8,
            ((n * 4 + 2) / 16777216) as u8,
        ]
    } else {
        seq![
            3u8,
            (n % 256) as u8,
            ((n / 256) % 256) as u8,
            ((n / 65536) % 256) as u8,
            ((n / 16777216) % 256) as u8,
        ]
    }
}

/// The encoding of one snapshot pair: the validator handle, then the total
/// stake, then the own stake, each as eight little-endian bytes.
pub open spec fn pair_bytes(p: (ValidatorId, FullIdentification)) -> Seq<u8> {
    u64_le_bytes(p.0.raw) + u64_le_bytes(p.1.total_stake) + u64_le_bytes(p.1.own_stake)
}

/// The concatenated encodings of a sequence of snapshot pairs, in order.
pub open spec fn pairs_bytes(s: Seq<(ValidatorId, FullIdentification)>) -> Seq<u8>
    decreases s.len(),
{
    if s.len() == 0 {
        Seq::empty()
    } else {
        pairs_bytes(s.drop_last()) + pair_bytes(s.last())
    }
}

/// The full snapshot encoding: the compact element count, then the pairs.
pub open spec fn snapshot_bytes(s: Seq<(ValidatorId, FullIdentification)>) -> Seq<u8> {
    compact_len_bytes(s.len()) + pairs_bytes(s)
}

/// Relies on `parity_scale_codec::Encode` for `Vec<(u64, (u64, u64))>`: the
/// SCALE encoding of a vector is the compact encoding of its length followed
/// by each element's encoding in order, a tuple encodes as the concatenation
/// of its fields' encodings, and a `u64` encodes as its eight little-endian
/// bytes. Encoding a vector longer than `u32::MAX` panics, so such inputs
/// are excluded here.
#[verifier::external_body]
pub(crate) fn scale_encode_pairs(pairs: &Vec<(ValidatorId, FullIdentification)>) -> (r: Vec<
    u8,
>)
    requires
        pairs@.len() <= 0xFFFF_FFFF,
    ensures
        r@ == snapshot_bytes(pairs@),
{
    let plain: Vec<(u64, (u64, u64))> = pairs
        .iter()
        .map(|p| (p.0.raw, (p.1.total_stake, p.1.own_stake)))
        .collect();
    parity_scale_codec::Encode::encode(&plain)
}

} // verus!
