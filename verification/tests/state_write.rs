use perf_metrics::primitives::{Account, Address};
use perf_metrics::state_changes::{
    account_write_size, bytecode_write_size, storage_write_size, AccountOp, PlainStorageChangeset,
    StateChangeset, StateChanges, StorageOp, ACCOUNT_WRITE_SIZE, STORAGE_WRITE_SIZE,
};
use perf_metrics::storage_changes::{StorageChanges, StorageWipe};

fn addr(n: u64) -> Address {
    (n, 0, 0)
}

fn acct(n: u64) -> Account {
    Account { nonce: n, balance: (0, n as u128), bytecode_hash: None }
}

#[test]
fn write_plan_sorts_and_orders_operations() {
    let changes = StateChanges::from(StateChangeset {
        accounts: vec![(addr(3), Some(acct(3))), (addr(1), None), (addr(3), None)],
        storage: vec![
            PlainStorageChangeset {
                address: addr(9),
                wipe_storage: true,
                storage: vec![((0, 5), (0, 0)), ((0, 2), (0, 7))],
            },
            PlainStorageChangeset { address: addr(4), wipe_storage: false, storage: vec![((0, 1), (0, 1))] },
        ],
        contracts: vec![((0, 8), vec![1, 2, 3]), ((0, 2), vec![9])],
    });
    let plan = changes.write_to_db();
    assert_eq!(
        plan.accounts,
        vec![AccountOp::Delete(addr(1)), AccountOp::Upsert(addr(3), acct(3)), AccountOp::Delete(addr(3))]
    );
    assert_eq!(plan.bytecodes, vec![((0, 2), vec![9]), ((0, 8), vec![1, 2, 3])]);
    assert_eq!(
        plan.storage,
        vec![
            StorageOp::DeleteSlot(addr(4), (0, 1)),
            StorageOp::UpsertSlot(addr(4), (0, 1), (0, 1)),
            StorageOp::Wipe(addr(9)),
            StorageOp::DeleteSlot(addr(9), (0, 2)),
            StorageOp::UpsertSlot(addr(9), (0, 2), (0, 7)),
            StorageOp::DeleteSlot(addr(9), (0, 5)),
        ]
    );
}

#[test]
fn write_sizes() {
    assert_eq!(account_write_size(&AccountOp::Upsert(addr(1), acct(1))), Some(ACCOUNT_WRITE_SIZE));
    assert_eq!(account_write_size(&AccountOp::Delete(addr(1))), None);
    assert_eq!(bytecode_write_size(12), 100);
    assert_eq!(storage_write_size(&StorageOp::UpsertSlot(addr(1), (0, 1), (0, 1))), Some(STORAGE_WRITE_SIZE));
    assert_eq!(storage_write_size(&StorageOp::Wipe(addr(1))), None);
}

#[test]
fn storage_changes_size_in_bytes() {
    let mut c = StorageChanges::new();
    assert_eq!(c.size(), 0);
    c.insert_for_block_and_address(1, addr(1), StorageWipe::NoWipe, vec![((0, 1), (0, 1)), ((0, 2), (0, 2))]);
    c.insert_for_block_and_address(2, addr(1), StorageWipe::Primary, vec![]);
    assert_eq!(c.size(), (20 + 2 * 64) + 20);
}
