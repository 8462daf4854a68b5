//! Key scheme: a deterministic, collision-free mapping from a namespace
//! prefix and a session index to an off-chain storage key.
//!
//! The key is the prefix, a `/` separator, and the session index in its
//! canonical four-byte little-endian encoding. For a fixed prefix the mapping
//! is injective in the session index, so entries for distinct sessions never
//! collide in the store.

use vstd::prelude::*;

verus! {

/// A session index: a monotonically increasing, unsigned integer identifying
/// one bounded epoch during which a particular validator set is authoritative.
pub type SessionIndex = u32;

/// The canonical four-byte little-endian encoding of a session index.
pub open spec fn session_index_bytes(i: SessionIndex) -> Seq<u8> {
    seq![
        (i % 256) as u8,
        ((i / 256) % 256) as u8,
        ((i / 65536) % 256) as u8,
        ((i / 16777216) % 256) as u8,
    ]
}

/// The namespace prefix under which all session snapshots are stored:
/// the bytes of `"session_historical"`.
pub open spec fn session_prefix() -> Seq<u8> {
    seq![
        115u8, 101u8, 115u8, 115u8, 105u8, 111u8, 110u8, 95u8, 104u8, 105u8,
        115u8, 116u8, 111u8, 114u8, 105u8, 99u8, 97u8, 108u8,
    ]
}

/// The storage key for a session: prefix, `/` separator, then the
/// little-endian session index.
pub open spec fn derived_key(prefix: Seq<u8>, i: SessionIndex) -> Seq<u8> {
    prefix + seq![47u8] + session_index_bytes(i)
}

/// Writes a session index in its canonical four-byte little-endian encoding.
pub fn encode_session_index(i: SessionIndex) -> (r: Vec<u8>)
    ensures
        r@ == session_index_bytes(i),
{
    let mut r: Vec<u8> = Vec::new();
    r.push((i % 256) as u8);
    r.push(((i / 256) % 256) as u8);
    r.push(((i / 65536) % 256) as u8);
    r.push(((i / 16777216) % 256) as u8);
    proof {
        assert(r@ =~= session_index_bytes(i));
    }
    r
}

/// Derives the storage key for `session_index` under `prefix`.
pub fn derive_key(prefix: &[u8], session_index: SessionIndex) -> (r: Vec<u8>)
    ensures
        r@ == derived_key(prefix@, session_index),
{
    let mut r: Vec<u8> = Vec::new();
    let mut j: usize = 0;
    while j < prefix.len()
        invariant
            j <= prefix@.len(),
            r@ == prefix@.take(j as int),
        decreases prefix@.len() - j,
    {
        r.push(prefix[j]);
        j = j + 1;
        proof {
            assert(r@ =~= prefix@.take(j as int));
        }
    }
    r.push(47u8);
    let mut index_bytes = encode_session_index(session_index);
    r.push(index_bytes[0]);
    r.push(index_bytes[1]);
    r.push(index_bytes[2]);
    r.push(index_bytes[3]);
    proof {
        assert(prefix@.take(prefix@.len() as int) =~= prefix@);
        assert(r@ =~= derived_key(prefix@, session_index));
    }
    r
}

/// Returns the fixed namespace prefix as bytes.
pub fn prefix_bytes() -> (r: Vec<u8>)
    ensures
        r@ == session_prefix(),
{
    let mut r: Vec<u8> = Vec::new();
    r.push(115u8);
    r.push(101u8);
    r.push(115u8);
    r.push(115u8);
    r.push(105u8);
    r.push(111u8);
    r.push(110u8);
    r.push(95u8);
    r.push(104u8);
    r.push(105u8);
    r.push(115u8);
    r.push(116u8);
    r.push(111u8);
    r.push(114u8);
    r.push(105u8);
    r.push(99u8);
    r.push(97u8);
    r.push(108u8);
    proof {
        assert(r@ =~= session_prefix());
    }
    r
}

/// The four-byte little-endian encoding is injective: equal encodings come
/// only from equal session indices.
pub proof fn lemma_session_index_bytes_injective(i: SessionIndex, j: SessionIndex)
    requires
        session_index_bytes(i) == session_index_bytes(j),
    ensures
        i == j,
{
    assert(session_index_bytes(i)[0] == session_index_bytes(j)[0]);
    assert(session_index_bytes(i)[1] == session_index_bytes(j)[1]);
    assert(session_index_bytes(i)[2] == session_index_bytes(j)[2]);
    assert(session_index_bytes(i)[3] == session_index_bytes(j)[3]);
    assert((i % 256 == j % 256 && (i / 256) % 256 == (j / 256) % 256
        && (i / 65536) % 256 == (j / 65536) % 256
        && (i / 16777216) % 256 == (j / 16777216) % 256) ==> i == j) by (bit_vector);
}

/// Key injectivity: for a fixed prefix, distinct session indices derive
/// distinct storage keys.
pub proof fn lemma_derived_key_injective(prefix: Seq<u8>, i: SessionIndex, j: SessionIndex)
    requires
        derived_key(prefix, i) == derived_key(prefix, j),
    ensures
        i == j,
{
    let n = prefix.len() as int;
    assert(session_index_bytes(i) =~= session_index_bytes(j)) by {
        assert forall|k: int| 0 <= k < 4 implies session_index_bytes(i)[k]
            == session_index_bytes(j)[k] by {
            assert(derived_key(prefix, i)[n + 1 + k] == session_index_bytes(i)[k]);
            assert(derived_key(prefix, j)[n + 1 + k] == session_index_bytes(j)[k]);
        }
    }
    lemma_session_index_bytes_injective(i, j);
}

} // verus!
