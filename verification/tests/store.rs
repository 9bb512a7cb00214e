//! Ledger-store checks: zero defaults, replacement, zero-erasure.

use evm_harness::bytes::{Address, Word};
use evm_harness::state::{Account, Storage, Store};

fn some_addr(first: u8) -> Address {
    let mut b = vec![0u8; 20];
    b[0] = first;
    Address::from_bytes(b).unwrap()
}

#[test]
fn unseen_address_reads_as_the_zero_account() {
    let store = Store::new();
    let acct = store.get(&some_addr(0x42));
    assert_eq!(*acct.balance.as_bytes(), vec![0u8; 32]);
    assert_eq!(*acct.nonce.as_bytes(), vec![0u8; 32]);
    assert!(acct.code.is_empty());
    assert!(acct.storage.slots.is_empty());
}

#[test]
fn set_replaces_an_existing_account() {
    let mut store = Store::new();
    let a = some_addr(0x01);
    let mut first = Account::zero();
    first.balance = Word::from_u64(5);
    store.set(&a, first);
    let mut second = Account::zero();
    second.balance = Word::from_u64(9);
    store.set(&a, second);
    assert_eq!(*store.get(&a).balance.as_bytes(), *Word::from_u64(9).as_bytes());
    assert_eq!(store.entries.len(), 1);
}

#[test]
fn storage_get_of_absent_key_is_zero() {
    let storage = Storage::new();
    let v = storage.get(&Word::from_u64(3));
    assert_eq!(*v.as_bytes(), vec![0u8; 32]);
}

#[test]
fn storage_set_and_get_round_trip() {
    let mut storage = Storage::new();
    storage.set(&Word::from_u64(3), &Word::from_u64(77));
    assert_eq!(*storage.get(&Word::from_u64(3)).as_bytes(), *Word::from_u64(77).as_bytes());
    storage.set(&Word::from_u64(3), &Word::from_u64(88));
    assert_eq!(*storage.get(&Word::from_u64(3)).as_bytes(), *Word::from_u64(88).as_bytes());
    assert_eq!(storage.slots.len(), 1);
}

#[test]
fn storage_set_zero_erases_the_entry() {
    let mut storage = Storage::new();
    storage.set(&Word::from_u64(3), &Word::from_u64(77));
    storage.set(&Word::from_u64(3), &Word::zero());
    assert!(storage.slots.is_empty());
    assert_eq!(*storage.get(&Word::from_u64(3)).as_bytes(), vec![0u8; 32]);
}

#[test]
fn word_from_u64_is_big_endian() {
    let w = Word::from_u64(0x0102030405060708);
    let mut expected = vec![0u8; 24];
    expected.extend_from_slice(&[1, 2, 3, 4, 5, 6, 7, 8]);
    assert_eq!(*w.as_bytes(), expected);
    assert_eq!(*Word::zero().as_bytes(), vec![0u8; 32]);
}
