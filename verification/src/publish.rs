//! The publish path: resolve the validator set, convert and filter the
//! identities, serialize the snapshot, derive the storage key, and write the
//! encoded bytes into the off-chain indexed store.
//!
//! Both entry points must be called only from deterministic on-chain block
//! execution (initialization or finalization); they read the registry's
//! mutable state and their write is meant to become visible only with the
//! block that produced it. Nothing here checks that discipline at run time.

use vstd::prelude::*;

use crate::encoding::{scale_encode_pairs, snapshot_bytes};
use crate::identity::IdentityConverter;
use crate::keys::{derive_key, derived_key, prefix_bytes, session_prefix, SessionIndex};
use crate::registry::SessionRegistry;
use crate::snapshot::{build_snapshot, lemma_snapshot_len, snapshot_of};
use crate::store::OffchainStore;

verus! {

/// The storage key any invocation writes for session `session_index`.
pub open spec fn published_key(session_index: SessionIndex) -> Seq<u8> {
    derived_key(session_prefix(), session_index)
}

/// The encoded snapshot any invocation writes for the registry state seen
/// through `registry` and `converter`.
pub open spec fn published_value<R: SessionRegistry, C: IdentityConverter>(
    registry: &R,
    converter: &C,
) -> Seq<u8> {
    snapshot_bytes(snapshot_of(converter, registry.spec_validators()))
}

/// Computes the entry that publishing session `session_index` writes: the
/// storage key derived from the fixed prefix and the index, and the
/// canonical encoding of the converted-and-filtered validator list.
pub fn published_entry<R: SessionRegistry, C: IdentityConverter>(
    registry: &R,
    converter: &C,
    session_index: SessionIndex,
) -> (r: (Vec<u8>, Vec<u8>))
    requires
        registry.spec_validators().len() <= 0xFFFF_FFFF,
    ensures
        r.0@ == published_key(session_index),
        r.1@ == published_value(registry, converter),
{
    let validator_list = registry.validators();
    let snapshot = build_snapshot(converter, &validator_list);
    proof {
        lemma_snapshot_len(converter, validator_list@);
    }
    let encoded_validator_list = scale_encode_pairs(&snapshot);
    let prefix = prefix_bytes();
    let key = derive_key(prefix.as_slice(), session_index);
    (key, encoded_validator_list)
}

/// Stores the validator set associated to `session_index` in the off-chain
/// indexed store: one write, under the key derived from the fixed prefix and
/// `session_index`, of the canonical encoding of the converted-and-filtered
/// validator list.
///
/// Must be called from on-chain block initialization or finalization only.
pub fn store_session_validator_set_to_offchain<
    R: SessionRegistry,
    C: IdentityConverter,
    S: OffchainStore,
>(
    registry: &R,
    converter: &C,
    store: &mut S,
    session_index: SessionIndex,
)
    requires
        registry.spec_validators().len() <= 0xFFFF_FFFF,
    ensures
        final(store).contents() == old(store).contents().insert(
            published_key(session_index),
            published_value(registry, converter),
        ),
        final(store).write_count() == old(store).write_count() + 1,
{
    let (derived, encoded_validator_list) = published_entry(registry, converter, session_index);
    store.set(derived.as_slice(), encoded_validator_list.as_slice());
}

/// Stores the validator set associated to the current session index, as the
/// registry reports it, in the off-chain indexed store. Behaves exactly as
/// [`store_session_validator_set_to_offchain`] called with that index.
///
/// Must be called from on-chain block initialization or finalization only.
pub fn store_current_session_validator_set_to_offchain<
    R: SessionRegistry,
    C: IdentityConverter,
    S: OffchainStore,
>(registry: &R, converter: &C, store: &mut S)
    requires
        registry.spec_validators().len() <= 0xFFFF_FFFF,
    ensures
        final(store).contents() == old(store).contents().insert(
            published_key(registry.spec_current_index()),
            published_value(registry, converter),
        ),
        final(store).write_count() == old(store).write_count() + 1,
{
    let session_index = registry.current_index();
    store_session_validator_set_to_offchain(registry, converter, store, session_index);
}

/// Entries for distinct sessions never collide: equal published keys come
/// only from equal session indices.
pub proof fn lemma_published_key_injective(i: SessionIndex, j: SessionIndex)
    requires
        published_key(i) == published_key(j),
    ensures
        i == j,
{
    crate::keys::lemma_derived_key_injective(session_prefix(), i, j);
}

/// Delegation correctness: when the registry reports current index `i`,
/// publishing "the current session" leaves any store exactly as publishing
/// session `i` would — the same key, the same bytes, the same resulting
/// contents.
pub proof fn lemma_publish_current_delegates<R: SessionRegistry, C: IdentityConverter>(
    registry: &R,
    converter: &C,
    i: SessionIndex,
    store_contents: Map<Seq<u8>, Seq<u8>>,
)
    requires
        registry.spec_current_index() == i,
    ensures
        store_contents.insert(
            published_key(registry.spec_current_index()),
            published_value(registry, converter),
        ) == store_contents.insert(published_key(i), published_value(registry, converter)),
{
}

/// Determinism: two invocations against registries and converters in the
/// same state produce byte-identical encoded snapshots. The derived key is
/// identical as well, since [`published_key`] depends on nothing but the
/// session index.
pub proof fn lemma_publish_deterministic<
    R1: SessionRegistry,
    C1: IdentityConverter,
    R2: SessionRegistry,
    C2: IdentityConverter,
>(r1: &R1, c1: &C1, r2: &R2, c2: &C2)
    requires
        r1.spec_validators() == r2.spec_validators(),
        forall|id: crate::identity::ValidatorId| c1.spec_convert(id) == c2.spec_convert(id),
    ensures
        published_value(r1, c1) == published_value(r2, c2),
{
    crate::snapshot::lemma_snapshot_converter_agreement(c1, c2, r1.spec_validators());
}

} // verus!
