use perf_metrics::post_state::AccountChanges;
use perf_metrics::primitives::{option_account_eq, Account, Address};
use perf_metrics::storage_changes::{Storage, StorageChanges, StorageTransition, StorageWipe};
use std::collections::BTreeMap;

fn addr(n: u64) -> Address {
    (n, 0, 0)
}

fn acct(nonce: u64) -> Option<Account> {
    Some(Account { nonce, balance: (nonce as u128, 0), bytecode_hash: None })
}

#[test]
fn account_insert_keeps_first_prior_state() {
    let mut c = AccountChanges::new();
    c.insert(1, addr(1), None, acct(1));
    c.insert(1, addr(1), acct(5), acct(2));
    assert_eq!(c.size, 1);
    assert_eq!(c.inner[&1][&addr(1)], None);
}

#[test]
fn account_insert_back_to_prior_state_removes_change() {
    let mut c = AccountChanges::new();
    c.insert(3, addr(9), acct(1), acct(2));
    assert_eq!(c.size, 1);
    c.insert(3, addr(9), acct(2), acct(1));
    assert_eq!(c.size, 0);
    assert!(c.inner[&3].is_empty());
}

#[test]
fn account_insert_for_block_skips_existing() {
    let mut c = AccountChanges::new();
    c.insert(2, addr(1), None, acct(1));
    let mut changes = BTreeMap::new();
    changes.insert(addr(1), acct(7));
    changes.insert(addr(2), acct(8));
    c.insert_for_block(2, changes);
    assert_eq!(c.size, 2);
    assert_eq!(c.inner[&2][&addr(1)], None);
    assert_eq!(c.inner[&2][&addr(2)], acct(8));
}

#[test]
fn account_drain_and_retain_split_at_target() {
    let mut c = AccountChanges::new();
    for b in 1..=4u64 {
        c.insert(b, addr(b), None, acct(b));
        c.insert(b, addr(b + 10), None, acct(b));
    }
    assert_eq!(c.size, 8);
    let mut d = c.clone();
    let evicted = c.drain_above(2);
    assert_eq!(evicted.keys().copied().collect::<Vec<_>>(), vec![3, 4]);
    assert_eq!(c.inner.keys().copied().collect::<Vec<_>>(), vec![1, 2]);
    assert_eq!(c.size, 4);
    d.retain_above(2);
    assert_eq!(d.inner.keys().copied().collect::<Vec<_>>(), vec![3, 4]);
    assert_eq!(d.size, 4);
}

#[test]
fn option_account_equality() {
    assert!(option_account_eq(&None, &None));
    assert!(option_account_eq(&acct(3), &acct(3)));
    assert!(!option_account_eq(&acct(3), &acct(4)));
    assert!(!option_account_eq(&acct(3), &None));
}

#[test]
fn storage_wipe_predicates() {
    assert!(!StorageWipe::NoWipe.is_wiped());
    assert!(StorageWipe::Primary.is_wiped());
    assert!(StorageWipe::Secondary.is_wiped());
    assert!(StorageWipe::Primary.is_primary());
    assert!(!StorageWipe::Secondary.is_primary());
    assert!(!StorageWipe::default().is_wiped());
}

#[test]
fn storage_sizes() {
    let mut t = StorageTransition::new();
    assert_eq!(t.size(), 0);
    t.storage.insert((1, 0), (2, 0));
    t.storage.insert((3, 0), (4, 0));
    assert_eq!(t.size(), 128);
    let mut s = Storage { times_wiped: 0, storage: BTreeMap::new() };
    assert!(!s.wiped());
    s.storage.insert((1, 0), (1, 0));
    s.times_wiped = 2;
    assert!(s.wiped());
    assert_eq!(s.size(), 8 + 64);
}

#[test]
fn storage_insert_keeps_first_values_and_counts_new_slots() {
    let mut c = StorageChanges::new();
    c.insert_for_block_and_address(5, addr(1), StorageWipe::NoWipe, vec![((1, 0), (10, 0)), ((2, 0), (20, 0))]);
    c.insert_for_block_and_address(
        5,
        addr(1),
        StorageWipe::Primary,
        vec![((1, 0), (99, 0)), ((3, 0), (30, 0)), ((3, 0), (31, 0))],
    );
    assert_eq!(c.size, 3);
    let t = &c.inner[&5][&addr(1)];
    assert_eq!(t.wipe, StorageWipe::Primary);
    assert_eq!(t.storage[&(1, 0)], (10, 0));
    assert_eq!(t.storage[&(3, 0)], (30, 0));
    c.insert_for_block_and_address(5, addr(1), StorageWipe::NoWipe, vec![]);
    assert_eq!(c.inner[&5][&addr(1)].wipe, StorageWipe::Primary);
}

#[test]
fn storage_drain_above_moves_later_blocks() {
    let mut c = StorageChanges::new();
    c.insert_for_block_and_address(1, addr(1), StorageWipe::NoWipe, vec![((1, 0), (1, 0))]);
    c.insert_for_block_and_address(2, addr(1), StorageWipe::NoWipe, vec![((1, 0), (1, 0)), ((2, 0), (1, 0))]);
    let evicted = c.drain_above(1);
    assert_eq!(evicted.keys().copied().collect::<Vec<_>>(), vec![2]);
    assert_eq!(c.size, 1);
    assert_eq!(c.inner.keys().copied().collect::<Vec<_>>(), vec![1]);
}

#[test]
fn storage_retain_above_rewipes_in_block_order() {
    let mut c = StorageChanges::new();
    c.insert_for_block_and_address(1, addr(1), StorageWipe::Primary, vec![((1, 0), (1, 0))]);
    c.insert_for_block_and_address(2, addr(1), StorageWipe::Secondary, vec![((1, 0), (2, 0))]);
    c.insert_for_block_and_address(3, addr(1), StorageWipe::Secondary, vec![]);
    c.insert_for_block_and_address(3, addr(2), StorageWipe::NoWipe, vec![((5, 0), (5, 0))]);
    let times = c.retain_above(1);
    assert_eq!(c.size, 2);
    assert_eq!(c.inner.keys().copied().collect::<Vec<_>>(), vec![2, 3]);
    assert_eq!(c.inner[&2][&addr(1)].wipe, StorageWipe::Primary);
    assert_eq!(c.inner[&3][&addr(1)].wipe, StorageWipe::Secondary);
    assert_eq!(c.inner[&3][&addr(2)].wipe, StorageWipe::NoWipe);
    assert_eq!(times.get(&addr(1)), Some(&2));
    assert_eq!(times.get(&addr(2)), None);
}
