use ledger_modules::kittiesx::weights::{SubstrateWeight, WeightInfo};
use ledger_modules::store::{StorageKey, StorageMap, StorageValue, TypedMap};
use ledger_modules::weight::{DbWeight, RuntimeDbWeight, Weight};
use std::collections::BTreeMap;

fn hex(bytes: &[u8]) -> String {
    bytes.iter().map(|b| format!("{:02x}", b)).collect()
}

#[test]
fn storage_keys_are_prefix_hash_and_key() {
    let map: StorageMap<u8> = StorageMap::new(b"System", b"Account");
    let full = map.storage_key(b"abc");
    assert_eq!(full.len(), 32 + 16 + 3);
    assert_eq!(hex(&full[..16]), "26aa394eea5630e07c48ae0c9558cef7");
    assert_eq!(hex(&full[16..32]), "b99d880ec681799c0cf30e8886371da9");
    assert_eq!(&full[32..48], &sp_io::hashing::blake2_128(b"abc")[..]);
    assert_eq!(&full[48..], b"abc");
    let cell: StorageValue<u8> = StorageValue::new(b"System", b"Account");
    assert_eq!(cell.storage_key(), full[..32].to_vec());
    let typed: TypedMap<u32, u8> = TypedMap::new(b"System", b"Account");
    let key = typed.storage_key(0x01020304);
    assert_eq!(&key[..32], &full[..32]);
    assert_eq!(&key[32..48], &sp_io::hashing::blake2_128(&[4, 3, 2, 1])[..]);
    assert_eq!(&key[48..], &[4, 3, 2, 1]);
}

#[test]
fn map_holds_one_value_under_each_key() {
    let mut map: StorageMap<u32> = StorageMap::new(b"m", b"i");
    assert_eq!(map.len(), 0);
    assert_eq!(map.get(b"a"), None);
    map.insert(b"a", 1);
    map.insert(b"b", 2);
    map.insert(b"", 3);
    map.insert(b"a", 4);
    assert_eq!(map.len(), 3);
    assert_eq!(map.get(b"a"), Some(&4));
    assert_eq!(map.get(b"b"), Some(&2));
    assert_eq!(map.get(b""), Some(&3));
    assert!(map.contains_key(b"b"));
    map.remove(b"b");
    map.remove(b"zz");
    assert!(!map.contains_key(b"b"));
    assert_eq!(map.len(), 2);
    let mut listing = map.drain();
    listing.sort();
    assert_eq!(listing, vec![(b"".to_vec(), 3), (b"a".to_vec(), 4)]);
    assert_eq!(map.len(), 0);
    assert_eq!(map.get(b"a"), None);
}

#[test]
fn typed_map_drains_every_entry_once() {
    let mut map: TypedMap<u32, u8> = TypedMap::new(b"m", b"i");
    map.insert(7, 1);
    map.insert(300, 2);
    map.insert(7, 3);
    assert_eq!(map.get(7), Some(&3));
    assert_eq!(map.get(8), None);
    map.remove(8);
    let mut listing = map.drain();
    listing.sort();
    assert_eq!(listing, vec![(7, 3), (300, 2)]);
    assert!(!map.contains_key(7));
    assert_eq!(map.drain(), vec![]);
}

#[test]
fn cell_holds_what_was_put_last() {
    let mut cell: StorageValue<u16> = StorageValue::new(b"m", b"i");
    assert_eq!(cell.get(), None);
    cell.put(1);
    cell.put(2);
    assert_eq!(cell.get(), Some(&2));
    cell.kill();
    assert_eq!(cell.get(), None);
}

#[test]
fn keys_are_written_little_endian_and_read_back() {
    assert_eq!(0x01020304u32.to_key(), vec![4, 3, 2, 1]);
    assert_eq!(<u32 as StorageKey>::from_key(&[4, 3, 2, 1]), Some(0x01020304));
    assert_eq!(<u32 as StorageKey>::from_key(&[4, 3, 2]), None);
    assert_eq!(0x0102030405060708u64.to_key(), vec![8, 7, 6, 5, 4, 3, 2, 1]);
    assert_eq!(<u64 as StorageKey>::from_key(&[8, 7, 6, 5, 4, 3, 2, 1]), Some(0x0102030405060708));
    assert_eq!(<u64 as StorageKey>::from_key(&[0; 9]), None);
}

#[test]
fn weights_add_up_and_stop_at_the_largest_value() {
    assert_eq!(Weight::zero(), Weight::from_parts(0, 0));
    let w = Weight::from_parts(u64::MAX - 1, 5).saturating_add(Weight::from_parts(7, 6));
    assert_eq!(w.ref_time(), u64::MAX);
    assert_eq!(w.proof_size(), 11);
    let db = RuntimeDbWeight { read: 3, write: u64::MAX / 2 + 1 };
    assert_eq!(db.reads(4), Weight::from_parts(12, 0));
    assert_eq!(db.writes(1), Weight::from_parts(u64::MAX / 2 + 1, 0));
    assert_eq!(db.writes(2), Weight::from_parts(u64::MAX, 0));
    assert_eq!(<() as DbWeight>::db_weight(), RuntimeDbWeight { read: 25_000_000, write: 100_000_000 });
    assert_eq!(<() as WeightInfo>::do_something(), Weight::from_parts(109_000_000, 0));
    assert_eq!(<SubstrateWeight<()> as WeightInfo>::do_something(), Weight::from_parts(109_000_000, 0));
}

#[test]
fn scope_on_a_map_is_undone_as_a_whole() {
    let mut map: StorageMap<u32> = StorageMap::new(b"m", b"i");
    map.insert(b"a", 1);
    map.insert(b"b", 2);
    map.begin_transaction();
    map.insert(b"a", 10);
    map.insert(b"c", 3);
    map.remove(b"b");
    map.insert(b"b", 20);
    map.remove(b"c");
    map.insert(b"a", 11);
    assert_eq!(map.get(b"a"), Some(&11));
    map.rollback_transaction();
    assert_eq!(map.get(b"a"), Some(&1));
    assert_eq!(map.get(b"b"), Some(&2));
    assert_eq!(map.get(b"c"), None);
    assert_eq!(map.len(), 2);
}

#[test]
fn scope_on_a_map_is_kept_as_a_whole() {
    let mut map: StorageMap<u32> = StorageMap::new(b"m", b"i");
    map.insert(b"a", 1);
    map.begin_transaction();
    map.insert(b"a", 10);
    map.remove(b"zz");
    map.insert(b"c", 3);
    map.commit_transaction();
    map.rollback_transaction();
    assert_eq!(map.get(b"a"), Some(&10));
    assert_eq!(map.get(b"c"), Some(&3));
    map.begin_transaction();
    map.remove(b"a");
    map.begin_transaction();
    map.remove(b"c");
    map.rollback_transaction();
    assert_eq!(map.get(b"a"), None);
    assert_eq!(map.get(b"c"), Some(&3));
}

#[test]
fn drained_entries_come_back_when_the_scope_is_undone() {
    let mut map: TypedMap<u32, u8> = TypedMap::new(b"m", b"i");
    map.insert(1, 1);
    map.insert(2, 2);
    map.begin_transaction();
    map.insert(3, 3);
    let mut listing = map.drain();
    listing.sort();
    assert_eq!(listing, vec![(1, 1), (2, 2), (3, 3)]);
    map.insert(2, 9);
    map.rollback_transaction();
    assert_eq!(map.get(1), Some(&1));
    assert_eq!(map.get(2), Some(&2));
    assert_eq!(map.get(3), None);
}

#[test]
fn scope_on_a_cell_goes_back_to_what_it_held_at_its_start() {
    let mut cell: StorageValue<u16> = StorageValue::new(b"m", b"i");
    cell.begin_transaction();
    cell.put(1);
    cell.put(2);
    cell.rollback_transaction();
    assert_eq!(cell.get(), None);
    cell.put(3);
    cell.begin_transaction();
    cell.kill();
    cell.put(4);
    cell.rollback_transaction();
    assert_eq!(cell.get(), Some(&3));
    cell.begin_transaction();
    cell.put(5);
    cell.commit_transaction();
    cell.rollback_transaction();
    assert_eq!(cell.get(), Some(&5));
}

#[test]
fn mutate_puts_what_the_function_returns() {
    let mut map: StorageMap<u32> = StorageMap::new(b"m", b"i");
    map.mutate(b"a", |held| {
        assert_eq!(held, None);
        Some(1)
    });
    map.mutate(b"a", |held| held.map(|v| v + 1));
    assert_eq!(map.get(b"a"), Some(&2));
    map.mutate(b"a", |_| None);
    assert_eq!(map.get(b"a"), None);
    let mut typed: TypedMap<u64, u32> = TypedMap::new(b"m", b"i");
    typed.mutate(7, |_| Some(5));
    typed.begin_transaction();
    typed.mutate(7, |held| held.map(|v| v * 2));
    assert_eq!(typed.get(7), Some(&10));
    typed.rollback_transaction();
    assert_eq!(typed.get(7), Some(&5));
}

#[test]
fn map_with_scopes_behaves_like_a_plain_map_with_copies() {
    let mut map: StorageMap<u32> = StorageMap::new(b"m", b"i");
    let mut model: BTreeMap<Vec<u8>, u32> = BTreeMap::new();
    let mut kept: Option<BTreeMap<Vec<u8>, u32>> = None;
    let mut state: u64 = 0x2545_f491_4f6c_dd1d;
    for _ in 0..4000 {
        state = state.wrapping_mul(6364136223846793005).wrapping_add(1442695040888963407);
        let choice = (state >> 33) % 16;
        let key = vec![((state >> 40) % 7) as u8; ((state >> 50) % 3) as usize];
        let value = (state >> 20) as u32;
        match choice {
            0..=5 => {
                map.insert(&key, value);
                model.insert(key, value);
            },
            6..=8 => {
                map.remove(&key);
                model.remove(&key);
            },
            9..=10 => {
                map.mutate(&key, |held| held.map(|v| v ^ value));
                if let Some(v) = model.get_mut(&key) {
                    *v ^= value;
                }
            },
            11 => {
                map.begin_transaction();
                kept = Some(model.clone());
            },
            12 => {
                map.commit_transaction();
                kept = None;
            },
            13 => {
                map.rollback_transaction();
                if let Some(before) = kept.take() {
                    model = before;
                }
            },
            _ => {
                assert_eq!(map.get(&key), model.get(&key));
                assert_eq!(map.contains_key(&key), model.contains_key(&key));
                assert_eq!(map.len(), model.len());
            },
        }
    }
    let mut listing = map.drain();
    listing.sort();
    assert_eq!(listing, model.into_iter().collect::<Vec<_>>());
}
