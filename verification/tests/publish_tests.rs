use parity_scale_codec::Encode;
use session_historical::identity::{FullIdentification, TableConverter, ValidatorId};
use session_historical::keys::{derive_key, encode_session_index, prefix_bytes};
use session_historical::publish::{
    store_current_session_validator_set_to_offchain, store_session_validator_set_to_offchain,
};
use session_historical::registry::FixedRegistry;
use session_historical::store::{bytes_equal, MemStore, OffchainStore};

fn id(raw: u64) -> ValidatorId {
    ValidatorId { raw }
}

fn full(total_stake: u64, own_stake: u64) -> FullIdentification {
    FullIdentification {
        total_stake,
        own_stake,
    }
}

fn le8(x: u64) -> Vec<u8> {
    x.to_le_bytes().to_vec()
}

fn expected_key(session_index: u32) -> Vec<u8> {
    let mut key = b"session_historical/".to_vec();
    key.extend_from_slice(&session_index.to_le_bytes());
    key
}

#[test]
fn publish_three_validators_one_absent() {
    // Registry lists A, B, C; conversion maps A and C, leaves B absent.
    let registry = FixedRegistry {
        validator_list: vec![id(1), id(2), id(3)],
        index: 3,
    };
    let converter = TableConverter {
        entries: vec![(id(1), full(10, 5)), (id(3), full(30, 7))],
    };
    let mut store = MemStore::new();
    store_session_validator_set_to_offchain(&registry, &converter, &mut store, 3);

    assert_eq!(store.writes(), 1);

    let mut expected_value = vec![2u8 << 2];
    for bytes in [le8(1), le8(10), le8(5), le8(3), le8(30), le8(7)] {
        expected_value.extend_from_slice(&bytes);
    }
    let key = expected_key(3);
    assert_eq!(store.get(&key), Some(expected_value.clone()));

    // The snapshot's canonical encoding matches what the codec itself
    // produces for the same pair sequence.
    let direct = vec![(1u64, (10u64, 5u64)), (3u64, (30u64, 7u64))].encode();
    assert_eq!(expected_value, direct);

    let (written_key, written_value) = store.write_at(0);
    assert_eq!(written_key, key);
    assert_eq!(written_value, expected_value);
}

#[test]
fn publish_empty_validator_list_still_writes() {
    let registry = FixedRegistry {
        validator_list: vec![],
        index: 11,
    };
    let converter = TableConverter {
        entries: vec![(id(1), full(1, 1))],
    };
    let mut store = MemStore::new();
    store_session_validator_set_to_offchain(&registry, &converter, &mut store, 11);

    assert_eq!(store.writes(), 1);
    let empty_encoding = Vec::<(u64, (u64, u64))>::new().encode();
    assert_eq!(empty_encoding, vec![0u8]);
    assert_eq!(store.get(&expected_key(11)), Some(empty_encoding));
}

#[test]
fn publish_all_conversions_absent_writes_empty_sequence() {
    let registry = FixedRegistry {
        validator_list: vec![id(4), id(5), id(6)],
        index: 2,
    };
    let converter = TableConverter { entries: vec![] };
    let mut store = MemStore::new();
    store_session_validator_set_to_offchain(&registry, &converter, &mut store, 2);

    assert_eq!(store.writes(), 1);
    assert_eq!(store.get(&expected_key(2)), Some(vec![0u8]));
}

#[test]
fn publish_current_delegates_to_reported_index() {
    let registry = FixedRegistry {
        validator_list: vec![id(8), id(9)],
        index: 7,
    };
    let converter = TableConverter {
        entries: vec![(id(8), full(80, 8)), (id(9), full(90, 9))],
    };

    let mut store_current = MemStore::new();
    store_current_session_validator_set_to_offchain(&registry, &converter, &mut store_current);

    let mut store_explicit = MemStore::new();
    store_session_validator_set_to_offchain(&registry, &converter, &mut store_explicit, 7);

    assert_eq!(store_current.writes(), 1);
    assert_eq!(store_explicit.writes(), 1);
    assert_eq!(store_current.write_at(0), store_explicit.write_at(0));
    assert_eq!(store_current.get(&expected_key(7)), store_explicit.get(&expected_key(7)));
}

#[test]
fn publish_is_deterministic_across_invocations() {
    let registry = FixedRegistry {
        validator_list: vec![id(1), id(2)],
        index: 5,
    };
    let converter = TableConverter {
        entries: vec![(id(2), full(21, 2))],
    };

    let mut first = MemStore::new();
    store_session_validator_set_to_offchain(&registry, &converter, &mut first, 5);
    let mut second = MemStore::new();
    store_session_validator_set_to_offchain(&registry, &converter, &mut second, 5);

    assert_eq!(first.write_at(0), second.write_at(0));
}

#[test]
fn publish_preserves_registry_order() {
    // Registry order 30, 10, 20 must survive into the snapshot unsorted.
    let registry = FixedRegistry {
        validator_list: vec![id(30), id(10), id(20)],
        index: 1,
    };
    let converter = TableConverter {
        entries: vec![(id(10), full(1, 1)), (id(20), full(2, 2)), (id(30), full(3, 3))],
    };
    let mut store = MemStore::new();
    store_session_validator_set_to_offchain(&registry, &converter, &mut store, 1);

    let direct = vec![
        (30u64, (3u64, 3u64)),
        (10u64, (1u64, 1u64)),
        (20u64, (2u64, 2u64)),
    ]
    .encode();
    assert_eq!(store.get(&expected_key(1)), Some(direct));
}

#[test]
fn publish_keeps_duplicate_listings() {
    // The publisher trusts the registry to return a unique set and does not
    // deduplicate: a validator listed twice is published twice.
    let registry = FixedRegistry {
        validator_list: vec![id(1), id(1)],
        index: 4,
    };
    let converter = TableConverter {
        entries: vec![(id(1), full(12, 6))],
    };
    let mut store = MemStore::new();
    store_session_validator_set_to_offchain(&registry, &converter, &mut store, 4);

    let direct = vec![(1u64, (12u64, 6u64)), (1u64, (12u64, 6u64))].encode();
    assert_eq!(store.get(&expected_key(4)), Some(direct));
}

#[test]
fn derived_keys_differ_for_distinct_sessions() {
    let prefix = prefix_bytes();
    let key_one = derive_key(&prefix, 1);
    let key_two = derive_key(&prefix, 2);
    assert_ne!(key_one, key_two);
    assert_eq!(key_one, expected_key(1));
    assert_eq!(key_two, expected_key(2));
}

#[test]
fn derive_key_layout_is_prefix_separator_index() {
    let prefix = prefix_bytes();
    assert_eq!(prefix, b"session_historical".to_vec());
    let key = derive_key(&prefix, 0x0102_0304);
    let mut expected = b"session_historical/".to_vec();
    expected.extend_from_slice(&[0x04, 0x03, 0x02, 0x01]);
    assert_eq!(key, expected);
}

#[test]
fn session_index_encoding_is_little_endian() {
    assert_eq!(encode_session_index(0), vec![0, 0, 0, 0]);
    assert_eq!(encode_session_index(1), vec![1, 0, 0, 0]);
    assert_eq!(encode_session_index(0xDEAD_BEEF), vec![0xEF, 0xBE, 0xAD, 0xDE]);
    assert_eq!(encode_session_index(u32::MAX), vec![0xFF, 0xFF, 0xFF, 0xFF]);
}

#[test]
fn store_later_write_overrides_earlier() {
    let mut store = MemStore::new();
    store.set(b"key", b"one");
    store.set(b"key", b"two");
    assert_eq!(store.writes(), 2);
    assert_eq!(store.get(b"key"), Some(b"two".to_vec()));
    assert_eq!(store.get(b"other"), None);
}

#[test]
fn byte_slices_compare_by_content() {
    assert!(bytes_equal(b"abc", b"abc"));
    assert!(!bytes_equal(b"abc", b"abd"));
    assert!(!bytes_equal(b"abc", b"ab"));
    assert!(bytes_equal(b"", b""));
}
