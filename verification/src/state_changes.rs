//! Writing a block's state changes to the plain state tables. The changes
//! are sorted by key, as the tables are, and turned into the table
//! operations to perform, in order: set or delete each account, store each
//! bytecode, and for each account's storage wipe it where asked, then set
//! each slot, deleting slots whose new value is zero.
use rayon::slice::ParallelSliceMut;
use vstd::prelude::*;

use crate::primitives::{Account, Address, B256, U256};

verus! {


/// Whether address `a` sorts no later than `b`: byte order.
pub open spec fn addr_le(a: Address, b: Address) -> bool {
    a.0 < b.0 || (a.0 == b.0 && (a.1 < b.1 || (a.1 == b.1 && a.2 <= b.2)))
}

/// Whether word `a` sorts no later than `b`: numeric order.
pub open spec fn word_le(a: (u128, u128), b: (u128, u128)) -> bool {
    a.0 < b.0 || (a.0 == b.0 && a.1 <= b.1)
}

/// The storage changes of one account: whether its storage is wiped, and
/// its new slot values.
#[derive(Debug)]
pub struct PlainStorageChangeset {
    pub address: Address,
    pub wipe_storage: bool,
    pub storage: Vec<(U256, U256)>,
}

/// The changes of a block: new account states (`None` for a deleted
/// account), storage changes, and new bytecodes by hash.
#[derive(Debug)]
pub struct StateChangeset {
    pub accounts: Vec<(Address, Option<Account>)>,
    pub storage: Vec<PlainStorageChangeset>,
    pub contracts: Vec<(B256, Vec<u8>)>,
}

/// A change to the state of the world.
#[derive(Debug)]
pub struct StateChanges(pub StateChangeset);

impl StateChanges {
    /// The state changes of `changeset`.
    pub fn from(changeset: StateChangeset) -> (r: Self)
        ensures
            r.0 == changeset,
    {
        StateChanges(changeset)
    }
}

/// The entries of `s` whose address is `a`, in order.
pub open spec fn with_address<V>(s: Seq<(Address, V)>, a: Address) -> Seq<(Address, V)> {
    s.filter(|e: (Address, V)| e.0 == a)
}

/// The entries of `s` for hash `h`, in order.
pub open spec fn with_hash(s: Seq<(B256, Vec<u8>)>, h: B256) -> Seq<(B256, Vec<u8>)> {
    s.filter(|e: (B256, Vec<u8>)| e.0 == h)
}

/// The changesets of `s` for address `a`, in order.
pub open spec fn changesets_of(s: Seq<PlainStorageChangeset>, a: Address) -> Seq<PlainStorageChangeset> {
    s.filter(|e: PlainStorageChangeset| e.address == a)
}

/// `after` is `before` sorted by address, keeping the order of the entries
/// of each address.
pub open spec fn stably_sorted_accounts(
    before: Seq<(Address, Option<Account>)>,
    after: Seq<(Address, Option<Account>)>,
) -> bool {
    &&& after.len() == before.len()
    &&& forall|i: int, j: int| 0 <= i < j < after.len() ==> addr_le(after[i].0, after[j].0)
    &&& forall|a: Address| #[trigger] with_address(after, a) == with_address(before, a)
}

/// `after` is `before` sorted by hash, keeping the order of the entries of
/// each hash.
pub open spec fn stably_sorted_contracts(before: Seq<(B256, Vec<u8>)>, after: Seq<(B256, Vec<u8>)>) -> bool {
    &&& after.len() == before.len()
    &&& forall|i: int, j: int| 0 <= i < j < after.len() ==> word_le(after[i].0, after[j].0)
    &&& forall|h: B256| #[trigger] with_hash(after, h) == with_hash(before, h)
}

/// `after` is `before` sorted by address, keeping the order of the
/// changesets of each address.
pub open spec fn stably_sorted_storage(before: Seq<PlainStorageChangeset>, after: Seq<PlainStorageChangeset>) -> bool {
    &&& after.len() == before.len()
    &&& forall|i: int, j: int| 0 <= i < j < after.len() ==> addr_le(after[i].address, after[j].address)
    &&& forall|a: Address| #[trigger] changesets_of(after, a) == changesets_of(before, a)
}

/// `after` holds the slots of `before`, sorted by slot.
pub open spec fn sorted_slots(before: Seq<(U256, U256)>, after: Seq<(U256, U256)>) -> bool {
    &&& forall|i: int, j: int| 0 <= i < j < after.len() ==> word_le(after[i].0, after[j].0)
    &&& after.to_multiset() == before.to_multiset()
}

/// Sorts the accounts by address with `rayon`'s `par_sort_by_key`, which
/// its documentation calls stable: equal keys keep their order.
#[verifier::external_body]
fn sort_accounts(v: &mut Vec<(Address, Option<Account>)>)
    ensures
        stably_sorted_accounts(old(v)@, final(v)@),
{
    v.par_sort_by_key(|a| a.0);
}

/// Sorts the storage changesets by address with `rayon`'s
/// `par_sort_by_key`, which its documentation calls stable.
#[verifier::external_body]
fn sort_storage(v: &mut Vec<PlainStorageChangeset>)
    ensures
        stably_sorted_storage(old(v)@, final(v)@),
{
    v.par_sort_by_key(|a| a.address);
}

/// Sorts the bytecodes by hash with `rayon`'s `par_sort_by_key`, which its
/// documentation calls stable.
#[verifier::external_body]
fn sort_contracts(v: &mut Vec<(B256, Vec<u8>)>)
    ensures
        stably_sorted_contracts(old(v)@, final(v)@),
{
    v.par_sort_by_key(|a| a.0);
}

/// Sorts slots by slot with `rayon`'s `par_sort_unstable_by_key`: the
/// slots are kept, in an order by slot; of equal slots the order is not
/// claimed.
#[verifier::external_body]
fn sort_slots(v: &mut Vec<(U256, U256)>)
    ensures
        sorted_slots(old(v)@, final(v)@),
{
    v.par_sort_unstable_by_key(|a| a.0);
}

/// An operation on the plain account table.
#[derive(Clone, Copy, Debug, PartialEq, Eq)]
pub enum AccountOp {
    /// Set the account's state.
    Upsert(Address, Account),
    /// Delete the account, where the table has it.
    Delete(Address),
}

/// An operation on the plain storage table.
#[derive(Clone, Copy, Debug, PartialEq, Eq)]
pub enum StorageOp {
    /// Delete all slots of the account, where the table has any.
    Wipe(Address),
    /// Delete the slot, where the table has it.
    DeleteSlot(Address, U256),
    /// Set the slot's value.
    UpsertSlot(Address, U256, U256),
}

/// The operation that applies an account change.
pub open spec fn account_op(e: (Address, Option<Account>)) -> AccountOp {
    match e.1 {
        Some(acc) => AccountOp::Upsert(e.0, acc),
        None => AccountOp::Delete(e.0),
    }
}

/// The operations that apply the slot changes `slots` of address `a`: each
/// slot is deleted, and set again where its new value is not zero.
pub open spec fn slot_ops(a: Address, slots: Seq<(U256, U256)>) -> Seq<StorageOp>
    decreases slots.len(),
{
    if slots.len() == 0 {
        Seq::empty()
    } else {
        let e = slots.last();
        let tail = if e.1 != (0u128, 0u128) {
            seq![StorageOp::DeleteSlot(a, e.0), StorageOp::UpsertSlot(a, e.0, e.1)]
        } else {
            seq![StorageOp::DeleteSlot(a, e.0)]
        };
        slot_ops(a, slots.drop_last()) + tail
    }
}

/// The operations that apply a storage changeset: a wipe where asked, then
/// those of its slots.
pub open spec fn changeset_ops(c: PlainStorageChangeset) -> Seq<StorageOp> {
    (if c.wipe_storage { seq![StorageOp::Wipe(c.address)] } else { Seq::empty() }) + slot_ops(
        c.address,
        c.storage@,
    )
}

/// The operations that apply the storage changesets `s`, in order.
pub open spec fn storage_ops(s: Seq<PlainStorageChangeset>) -> Seq<StorageOp>
    decreases s.len(),
{
    if s.len() == 0 {
        Seq::empty()
    } else {
        storage_ops(s.drop_last()) + changeset_ops(s.last())
    }
}

/// The table operations of a block's changes, by table, in the order they
/// are performed: accounts, then bytecodes (each stored under its hash),
/// then storage.
pub struct WritePlan {
    pub accounts: Vec<AccountOp>,
    pub bytecodes: Vec<(B256, Vec<u8>)>,
    pub storage: Vec<StorageOp>,
}

/// Bytes recorded for writing an account: its address and its state.
pub const ACCOUNT_WRITE_SIZE: usize = 100;

/// Bytes recorded for writing a bytecode, beside its code: its hash and
/// the bytecode's header.
pub const BYTECODE_WRITE_SIZE: usize = 88;

/// Bytes recorded for writing a storage slot: the address and the entry.
pub const STORAGE_WRITE_SIZE: usize = 84;

/// The plan for `s`: its changes sorted, then turned into operations.
pub open spec fn is_plan_of(r: WritePlan, accounts: Seq<(Address, Option<Account>)>, storage: Seq<PlainStorageChangeset>, contracts: Seq<(B256, Vec<u8>)>) -> bool {
    &&& r.accounts@ == accounts.map_values(|e: (Address, Option<Account>)| account_op(e))
    &&& r.bytecodes@ == contracts
    &&& r.storage@ == storage_ops(storage)
}

impl StateChanges {
    /// The table operations that write these changes: accounts, storage
    /// changesets and bytecodes are sorted by key (stably), and the slots of
    /// each changeset by slot; then each account is set or, where deleted,
    /// removed; each bytecode stored; each changeset's storage wiped where
    /// asked and its slots deleted and, unless zero, set.
    #[verifier::spinoff_prover]
    #[verifier::rlimit(40)]
    pub fn write_to_db(self) -> (r: WritePlan)
        ensures
            exists|accounts: Seq<(Address, Option<Account>)>, storage: Seq<PlainStorageChangeset>, contracts: Seq<(B256, Vec<u8>)>|
                {
                    &&& stably_sorted_accounts(self.0.accounts@, accounts)
                    &&& stably_sorted_contracts(self.0.contracts@, contracts)
                    &&& storage.len() == self.0.storage@.len()
                    &&& (exists|sorted: Seq<PlainStorageChangeset>| {
                        &&& stably_sorted_storage(self.0.storage@, sorted)
                        &&& forall|i: int| 0 <= i < sorted.len() ==> {
                            &&& #[trigger] storage[i].address == sorted[i].address
                            &&& storage[i].wipe_storage == sorted[i].wipe_storage
                            &&& sorted_slots(sorted[i].storage@, storage[i].storage@)
                        }
                    })
                    &&& is_plan_of(r, accounts, storage, contracts)
                },
    {
        let ghost orig_accounts = self.0.accounts@;
        let ghost orig_storage = self.0.storage@;
        let ghost orig_contracts = self.0.contracts@;
        let StateChanges(StateChangeset { accounts: mut accounts, storage: mut storage, contracts: mut contracts }) = self;
        sort_accounts(&mut accounts);
        sort_storage(&mut storage);
        sort_contracts(&mut contracts);
        let ghost sorted_accounts = accounts@;
        let ghost sorted_contracts = contracts@;
        assert(stably_sorted_accounts(orig_accounts, sorted_accounts));
        assert(stably_sorted_contracts(orig_contracts, sorted_contracts));
        let ghost sorted_storage = storage@;

        let mut account_ops: Vec<AccountOp> = Vec::new();
        let mut i: usize = 0;
        while i < accounts.len()
            invariant
                0 <= i <= accounts@.len(),
                account_ops@ == accounts@.take(i as int).map_values(|e: (Address, Option<Account>)| account_op(e)),
            decreases accounts@.len() - i,
        {
            let (a, acc) = accounts[i];
            let op = match acc {
                Some(x) => AccountOp::Upsert(a, x),
                None => AccountOp::Delete(a),
            };
            account_ops.push(op);
            assert(accounts@.take(i + 1) =~= accounts@.take(i as int).push(accounts@[i as int]));
            i = i + 1;
        }
        assert(accounts@.take(accounts@.len() as int) =~= accounts@);

        let mut storage_ops_v: Vec<StorageOp> = Vec::new();
        let mut done: Vec<PlainStorageChangeset> = Vec::new();
        let n_exec: usize = storage.len();
        let ghost n = sorted_storage.len();
        let mut rev: Vec<PlainStorageChangeset> = Vec::new();
        while storage.len() > 0
            invariant
                storage@ == sorted_storage.take(storage@.len() as int),
                storage@.len() <= n,
                n == sorted_storage.len(),
                rev@.len() == n - storage@.len(),
                forall|t: int| 0 <= t < rev@.len() ==> #[trigger] rev@[t] == sorted_storage[n - 1 - t],
            decreases storage@.len(),
        {
            let ghost len0 = storage@.len();
            let c = storage.pop().unwrap();
            assert(c == sorted_storage[len0 - 1]);
            assert(storage@ =~= sorted_storage.take(len0 - 1));
            rev.push(c);
        }
        let mut j: usize = 0;
        while rev.len() > 0
            invariant
                n == sorted_storage.len(),
                n == n_exec,
                rev@.len() + j == n,
                forall|t: int| 0 <= t < rev@.len() ==> #[trigger] rev@[t] == sorted_storage[n - 1 - t],
                done@.len() == j,
                forall|k: int| 0 <= k < j ==> {
                    &&& #[trigger] done@[k].address == sorted_storage[k].address
                    &&& done@[k].wipe_storage == sorted_storage[k].wipe_storage
                    &&& sorted_slots(sorted_storage[k].storage@, done@[k].storage@)
                },
                storage_ops_v@ == storage_ops(done@),
            decreases rev@.len(),
        {
            let ghost len0 = rev@.len();
            let c = rev.pop().unwrap();
            assert(c == sorted_storage[j as int]);
            let PlainStorageChangeset { address, wipe_storage, storage: mut slots } = c;
            assert(slots@ == sorted_storage[j as int].storage@);
            sort_slots(&mut slots);
            let ghost before_ops = storage_ops_v@;
            if wipe_storage {
                storage_ops_v.push(StorageOp::Wipe(address));
            }
            let ghost wipe_part = if wipe_storage { seq![StorageOp::Wipe(address)] } else { Seq::<StorageOp>::empty() };
            assert(storage_ops_v@ == before_ops + wipe_part);
            let mut k: usize = 0;
            while k < slots.len()
                invariant
                    0 <= k <= slots@.len(),
                    storage_ops_v@ == before_ops + wipe_part + slot_ops(address, slots@.take(k as int)),
                decreases slots@.len() - k,
            {
                let (slot, value) = slots[k];
                assert(slots@.take(k + 1).drop_last() =~= slots@.take(k as int));
                storage_ops_v.push(StorageOp::DeleteSlot(address, slot));
                if value.0 != 0 || value.1 != 0 {
                    storage_ops_v.push(StorageOp::UpsertSlot(address, slot, value));
                }
                k = k + 1;
            }
            assert(slots@.take(slots@.len() as int) =~= slots@);
            let ghost new_c = PlainStorageChangeset { address, wipe_storage, storage: slots };
            proof {
                assert(done@.push(new_c).drop_last() =~= done@);
                assert(changeset_ops(new_c) == wipe_part + slot_ops(address, slots@));
                assert(before_ops + wipe_part + slot_ops(address, slots@) =~= before_ops + (wipe_part + slot_ops(address, slots@)));
            }
            done.push(PlainStorageChangeset { address, wipe_storage, storage: slots });
            j = j + 1;
        }
        assert(sorted_storage.len() == done@.len());
        let r = WritePlan { accounts: account_ops, bytecodes: contracts, storage: storage_ops_v };
        proof {
            let ghost sorted_done = done@;
            assert(is_plan_of(r, sorted_accounts, sorted_done, sorted_contracts));
            assert(stably_sorted_storage(orig_storage, sorted_storage));
            assert(sorted_done.len() == orig_storage.len());
            assert(forall|i: int| 0 <= i < sorted_storage.len() ==> {
                &&& #[trigger] sorted_done[i].address == sorted_storage[i].address
                &&& sorted_done[i].wipe_storage == sorted_storage[i].wipe_storage
                &&& sorted_slots(sorted_storage[i].storage@, sorted_done[i].storage@)
            });
            assert(exists|sorted: Seq<PlainStorageChangeset>| {
                &&& stably_sorted_storage(orig_storage, sorted)
                &&& forall|i: int| 0 <= i < sorted.len() ==> {
                    &&& #[trigger] sorted_done[i].address == sorted[i].address
                    &&& sorted_done[i].wipe_storage == sorted[i].wipe_storage
                    &&& sorted_slots(sorted[i].storage@, sorted_done[i].storage@)
                }
            });
        }
        r
    }
}

/// Bytes recorded for performing an account operation: an account's
/// address and state when it is set, nothing for a deletion.
pub fn account_write_size(op: &AccountOp) -> (r: Option<usize>)
    ensures
        r == match op {
            AccountOp::Upsert(_, _) => Some(ACCOUNT_WRITE_SIZE),
            AccountOp::Delete(_) => None::<usize>,
        },
{
    match op {
        AccountOp::Upsert(_, _) => Some(ACCOUNT_WRITE_SIZE),
        AccountOp::Delete(_) => None,
    }
}

/// Bytes recorded for storing a bytecode of `code_len` bytes.
pub fn bytecode_write_size(code_len: usize) -> (r: usize)
    requires
        BYTECODE_WRITE_SIZE + code_len <= usize::MAX,
    ensures
        r == BYTECODE_WRITE_SIZE + code_len,
{
    BYTECODE_WRITE_SIZE + code_len
}

/// Bytes recorded for performing a storage operation: an address and a
/// storage entry when a slot is set, nothing otherwise.
pub fn storage_write_size(op: &StorageOp) -> (r: Option<usize>)
    ensures
        r == match op {
            StorageOp::UpsertSlot(_, _, _) => Some(STORAGE_WRITE_SIZE),
            _ => None::<usize>,
        },
{
    match op {
        StorageOp::UpsertSlot(_, _, _) => Some(STORAGE_WRITE_SIZE),
        _ => None,
    }
}

/// The account table `m` after `op`.
pub open spec fn apply_account_op(m: Map<Address, Account>, op: AccountOp) -> Map<Address, Account> {
    match op {
        AccountOp::Upsert(a, acc) => m.insert(a, acc),
        AccountOp::Delete(a) => m.remove(a),
    }
}

/// The account table `m` after `ops`, in order.
pub open spec fn apply_account_ops(m: Map<Address, Account>, ops: Seq<AccountOp>) -> Map<Address, Account>
    decreases ops.len(),
{
    if ops.len() == 0 {
        m
    } else {
        apply_account_op(apply_account_ops(m, ops.drop_last()), ops.last())
    }
}

/// The account table `m` with the changes `s` made in order: each account
/// takes its new state, or is removed where it has none.
pub open spec fn accounts_changed(m: Map<Address, Account>, s: Seq<(Address, Option<Account>)>) -> Map<Address, Account>
    decreases s.len(),
{
    if s.len() == 0 {
        m
    } else {
        let e = s.last();
        let rest = accounts_changed(m, s.drop_last());
        match e.1 {
            Some(acc) => rest.insert(e.0, acc),
            None => rest.remove(e.0),
        }
    }
}

/// Performing the account operations of a plan makes the changes they were
/// made from: each account takes its new state, or is removed where it has
/// none, the later change of an account winning.
pub proof fn lemma_account_plan(m: Map<Address, Account>, s: Seq<(Address, Option<Account>)>)
    ensures
        apply_account_ops(m, s.map_values(|e: (Address, Option<Account>)| account_op(e)))
            == accounts_changed(m, s),
    decreases s.len(),
{
    if s.len() > 0 {
        let f = |e: (Address, Option<Account>)| account_op(e);
        assert(s.map_values(f).drop_last() =~= s.drop_last().map_values(f));
        lemma_account_plan(m, s.drop_last());
    }
}

/// The state account `a` ends in after the changes `t` of that account:
/// the last change's, or the table's where there is none.
pub open spec fn last_state(m: Map<Address, Account>, t: Seq<(Address, Option<Account>)>, a: Address) -> Option<Account> {
    if t.len() == 0 {
        if m.contains_key(a) { Some(m[a]) } else { None }
    } else {
        t.last().1
    }
}

/// The state of an account after a sequence of changes depends only on
/// the changes of that account.
proof fn lemma_account_by_address(m: Map<Address, Account>, s: Seq<(Address, Option<Account>)>, a: Address)
    ensures
        ({
            let r = accounts_changed(m, s);
            let st = last_state(m, with_address(s, a), a);
            &&& r.contains_key(a) == st is Some
            &&& st matches Some(acc) ==> r[a] == acc
        }),
    decreases s.len(),
{
    reveal_with_fuel(Seq::filter, 2);
    if s.len() > 0 {
        lemma_account_by_address(m, s.drop_last(), a);
    }
}

/// Sorting the account changes stably by address does not change the
/// account table they produce.
pub proof fn lemma_sorting_keeps_accounts(
    m: Map<Address, Account>,
    before: Seq<(Address, Option<Account>)>,
    after: Seq<(Address, Option<Account>)>,
)
    requires
        stably_sorted_accounts(before, after),
    ensures
        accounts_changed(m, after) == accounts_changed(m, before),
{
    assert forall|a: Address| #[trigger] accounts_changed(m, after).contains_key(a) == accounts_changed(m, before).contains_key(a)
        && (accounts_changed(m, after).contains_key(a) ==> accounts_changed(m, after)[a] == accounts_changed(m, before)[a]) by {
        lemma_account_by_address(m, after, a);
        lemma_account_by_address(m, before, a);
        assert(with_address(after, a) == with_address(before, a));
    }
    assert(accounts_changed(m, after) =~= accounts_changed(m, before));
}

/// The storage table `m`, keyed by (address, slot), after `op`.
pub open spec fn apply_storage_op(m: Map<(Address, U256), U256>, op: StorageOp) -> Map<(Address, U256), U256> {
    match op {
        StorageOp::Wipe(a) => m.filter_keys(|k: (Address, U256)| k.0 != a),
        StorageOp::DeleteSlot(a, k) => m.remove((a, k)),
        StorageOp::UpsertSlot(a, k, v) => m.insert((a, k), v),
    }
}

/// The storage table `m` after `ops`, in order.
pub open spec fn apply_storage_ops(m: Map<(Address, U256), U256>, ops: Seq<StorageOp>) -> Map<(Address, U256), U256>
    decreases ops.len(),
{
    if ops.len() == 0 {
        m
    } else {
        apply_storage_op(apply_storage_ops(m, ops.drop_last()), ops.last())
    }
}

/// The storage table `m` with the new slot values `slots` of address `a`
/// set in order; a zero value removes the slot.
pub open spec fn slots_changed(m: Map<(Address, U256), U256>, a: Address, slots: Seq<(U256, U256)>) -> Map<(Address, U256), U256>
    decreases slots.len(),
{
    if slots.len() == 0 {
        m
    } else {
        let e = slots.last();
        let rest = slots_changed(m, a, slots.drop_last());
        if e.1 != (0u128, 0u128) {
            rest.insert((a, e.0), e.1)
        } else {
            rest.remove((a, e.0))
        }
    }
}

/// The storage table `m` with the changesets `cs` made in order: a wiped
/// account's slots are cleared first, then its new slot values set.
pub open spec fn storage_changed(m: Map<(Address, U256), U256>, cs: Seq<PlainStorageChangeset>) -> Map<(Address, U256), U256>
    decreases cs.len(),
{
    if cs.len() == 0 {
        m
    } else {
        let c = cs.last();
        let rest = storage_changed(m, cs.drop_last());
        let cleared = if c.wipe_storage { rest.filter_keys(|k: (Address, U256)| k.0 != c.address) } else { rest };
        slots_changed(cleared, c.address, c.storage@)
    }
}

/// Performing operations one list after another is performing their
/// concatenation.
proof fn lemma_apply_storage_concat(m: Map<(Address, U256), U256>, x: Seq<StorageOp>, y: Seq<StorageOp>)
    ensures
        apply_storage_ops(m, x + y) == apply_storage_ops(apply_storage_ops(m, x), y),
    decreases y.len(),
{
    if y.len() == 0 {
        assert(x + y =~= x);
    } else {
        assert((x + y).drop_last() =~= x + y.drop_last());
        lemma_apply_storage_concat(m, x, y.drop_last());
    }
}

/// The slot operations of a changeset set its slots as `slots_changed` says.
proof fn lemma_slot_ops(m: Map<(Address, U256), U256>, a: Address, slots: Seq<(U256, U256)>)
    ensures
        apply_storage_ops(m, slot_ops(a, slots)) == slots_changed(m, a, slots),
    decreases slots.len(),
{
    if slots.len() > 0 {
        let e = slots.last();
        let tail = if e.1 != (0u128, 0u128) {
            seq![StorageOp::DeleteSlot(a, e.0), StorageOp::UpsertSlot(a, e.0, e.1)]
        } else {
            seq![StorageOp::DeleteSlot(a, e.0)]
        };
        reveal_with_fuel(apply_storage_ops, 3);
        lemma_slot_ops(m, a, slots.drop_last());
        lemma_apply_storage_concat(m, slot_ops(a, slots.drop_last()), tail);
        let mid = slots_changed(m, a, slots.drop_last());
        if e.1 != (0u128, 0u128) {
            assert(tail.drop_last() =~= seq![StorageOp::DeleteSlot(a, e.0)]);
            assert(seq![StorageOp::DeleteSlot(a, e.0)].drop_last() =~= Seq::<StorageOp>::empty());
            assert(apply_storage_ops(mid, tail) =~= mid.remove((a, e.0)).insert((a, e.0), e.1));
            assert(mid.remove((a, e.0)).insert((a, e.0), e.1) =~= mid.insert((a, e.0), e.1));
        } else {
            assert(tail.drop_last() =~= Seq::<StorageOp>::empty());
        }
    }
}

/// Performing the storage operations of a plan makes the changesets they
/// were made from: each wiped account's slots are cleared, then each slot
/// takes its new value, a zero value removing it.
pub proof fn lemma_storage_plan(m: Map<(Address, U256), U256>, cs: Seq<PlainStorageChangeset>)
    ensures
        apply_storage_ops(m, storage_ops(cs)) == storage_changed(m, cs),
    decreases cs.len(),
{
    if cs.len() > 0 {
        let c = cs.last();
        reveal_with_fuel(apply_storage_ops, 2);
        lemma_storage_plan(m, cs.drop_last());
        let rest = storage_changed(m, cs.drop_last());
        let wipe_part = if c.wipe_storage { seq![StorageOp::Wipe(c.address)] } else { Seq::<StorageOp>::empty() };
        assert(changeset_ops(c) == wipe_part + slot_ops(c.address, c.storage@));
        assert(storage_ops(cs) == storage_ops(cs.drop_last()) + changeset_ops(c));
        assert(storage_ops(cs.drop_last()) + (wipe_part + slot_ops(c.address, c.storage@))
            =~= storage_ops(cs.drop_last()) + wipe_part + slot_ops(c.address, c.storage@));
        lemma_apply_storage_concat(m, storage_ops(cs.drop_last()) + wipe_part, slot_ops(c.address, c.storage@));
        lemma_apply_storage_concat(m, storage_ops(cs.drop_last()), wipe_part);
        let cleared = apply_storage_ops(rest, wipe_part);
        if c.wipe_storage {
            assert(wipe_part.drop_last() =~= Seq::<StorageOp>::empty());
        }
        lemma_slot_ops(cleared, c.address, c.storage@);
    }
}

/// Tables `x` and `y` hold the same slots of address `a`.
pub open spec fn agree_on(x: Map<(Address, U256), U256>, y: Map<(Address, U256), U256>, a: Address) -> bool {
    forall|k: U256| #![trigger x.contains_key((a, k))] #![trigger y.contains_key((a, k))]
        x.contains_key((a, k)) == y.contains_key((a, k)) && (x.contains_key((a, k)) ==> x[(a, k)] == y[(a, k)])
}

/// Setting the slots of address `b` keeps agreement on address `a`, and
/// leaves the slots of other addresses as they were.
proof fn lemma_slots_agree(
    x: Map<(Address, U256), U256>,
    y: Map<(Address, U256), U256>,
    a: Address,
    b: Address,
    slots: Seq<(U256, U256)>,
)
    ensures
        agree_on(x, y, a) ==> agree_on(slots_changed(x, b, slots), slots_changed(y, b, slots), a),
        a != b ==> agree_on(slots_changed(x, b, slots), x, a),
    decreases slots.len(),
{
    if slots.len() > 0 {
        lemma_slots_agree(x, y, a, b, slots.drop_last());
    }
}

/// Making changesets keeps agreement on address `a`.
proof fn lemma_changesets_agree(
    x: Map<(Address, U256), U256>,
    y: Map<(Address, U256), U256>,
    a: Address,
    c: PlainStorageChangeset,
)
    requires
        agree_on(x, y, a),
    ensures
        ({
            let cx = if c.wipe_storage { x.filter_keys(|k: (Address, U256)| k.0 != c.address) } else { x };
            let cy = if c.wipe_storage { y.filter_keys(|k: (Address, U256)| k.0 != c.address) } else { y };
            agree_on(slots_changed(cx, c.address, c.storage@), slots_changed(cy, c.address, c.storage@), a)
        }),
{
    let cx = if c.wipe_storage { x.filter_keys(|k: (Address, U256)| k.0 != c.address) } else { x };
    let cy = if c.wipe_storage { y.filter_keys(|k: (Address, U256)| k.0 != c.address) } else { y };
    assert(agree_on(cx, cy, a));
    lemma_slots_agree(cx, cy, a, c.address, c.storage@);
}

/// The slots of address `a` after a sequence of changesets depend only on
/// the changesets of `a`.
proof fn lemma_storage_by_address(m: Map<(Address, U256), U256>, cs: Seq<PlainStorageChangeset>, a: Address)
    ensures
        agree_on(storage_changed(m, cs), storage_changed(m, changesets_of(cs, a)), a),
    decreases cs.len(),
{
    reveal_with_fuel(Seq::filter, 2);
    if cs.len() > 0 {
        let c = cs.last();
        lemma_storage_by_address(m, cs.drop_last(), a);
        let rest = storage_changed(m, cs.drop_last());
        let cleared = if c.wipe_storage { rest.filter_keys(|k: (Address, U256)| k.0 != c.address) } else { rest };
        if c.address == a {
            let f = changesets_of(cs, a);
            assert(f == changesets_of(cs.drop_last(), a).push(c));
            assert(f.drop_last() =~= changesets_of(cs.drop_last(), a));
            lemma_changesets_agree(rest, storage_changed(m, changesets_of(cs.drop_last(), a)), a, c);
        } else {
            assert(changesets_of(cs, a) == changesets_of(cs.drop_last(), a));
            assert(agree_on(cleared, rest, a));
            lemma_slots_agree(cleared, cleared, a, c.address, c.storage@);
        }
    }
}

/// No two entries of `s` set the same slot.
pub open spec fn distinct_slots(s: Seq<(U256, U256)>) -> bool {
    forall|i: int, j: int| 0 <= i < j < s.len() ==> s[i].0 != s[j].0
}

/// With distinct slots, the value a slot ends with is that of its entry,
/// where there is one; a zero value removes it.
proof fn lemma_slot_value(x: Map<(Address, U256), U256>, a: Address, s: Seq<(U256, U256)>, k: U256)
    requires
        distinct_slots(s),
    ensures
        (forall|i: int| 0 <= i < s.len() ==> s[i].0 != k) ==> (slots_changed(x, a, s).contains_key((a, k))
            == x.contains_key((a, k)) && (x.contains_key((a, k)) ==> slots_changed(x, a, s)[(a, k)] == x[(a, k)])),
        forall|i: int| 0 <= i < s.len() && s[i].0 == k ==> (slots_changed(x, a, s).contains_key((a, k))
            == (s[i].1 != (0u128, 0u128)) && (s[i].1 != (0u128, 0u128) ==> slots_changed(x, a, s)[(a, k)] == s[i].1)),
    decreases s.len(),
{
    if s.len() > 0 {
        let t = s.drop_last();
        assert(distinct_slots(t));
        lemma_slot_value(x, a, t, k);
        let last = s.len() - 1;
        assert forall|i: int| 0 <= i < s.len() && s[i].0 == k implies (slots_changed(x, a, s).contains_key((a, k))
            == (s[i].1 != (0u128, 0u128)) && (s[i].1 != (0u128, 0u128) ==> slots_changed(x, a, s)[(a, k)] == s[i].1)) by {
            if i < last {
                assert(t[i] == s[i]);
                assert(s[last].0 != k);
            }
        }
        if forall|i: int| 0 <= i < s.len() ==> s[i].0 != k {
            assert(s[last].0 != k);
            assert forall|i: int| 0 <= i < t.len() implies t[i].0 != k by {
                assert(t[i] == s[i]);
            }
        }
    }
}

/// Reordering distinct slots does not change what setting them gives.
proof fn lemma_slots_reordered(x: Map<(Address, U256), U256>, a: Address, s1: Seq<(U256, U256)>, s2: Seq<(U256, U256)>)
    requires
        distinct_slots(s1),
        s2.to_multiset() == s1.to_multiset(),
    ensures
        distinct_slots(s2),
        slots_changed(x, a, s1) == slots_changed(x, a, s2),
    decreases s1.len(),
{
    broadcast use vstd::multiset::group_multiset_axioms;
    broadcast use vstd::seq_lib::group_to_multiset_ensures;
    assert forall|i: int, j: int| 0 <= i < j < s2.len() implies s2[i].0 != s2[j].0 by {
        if s2[i].0 == s2[j].0 {
            assert(s2.to_multiset().count(s2[i]) > 0);
            assert(s1.contains(s2[i]));
            assert(s2.to_multiset().count(s2[j]) > 0);
            assert(s1.contains(s2[j]));
            let p = choose|p: int| 0 <= p < s1.len() && s1[p] == s2[i];
            let q = choose|q: int| 0 <= q < s1.len() && s1[q] == s2[j];
            if p == q {
                assert(s2[i] == s2[j]);
                lemma_count_two(s2, i, j);
                lemma_count_one(s1, p);
                assert(false);
            }
        }
    }
    let r1 = slots_changed(x, a, s1);
    let r2 = slots_changed(x, a, s2);
    assert forall|key: (Address, U256)| #[trigger] r1.contains_key(key) == r2.contains_key(key)
        && (r1.contains_key(key) ==> r1[key] == r2[key]) by {
        lemma_slot_value(x, a, s1, key.1);
        lemma_slot_value(x, a, s2, key.1);
        if key.0 != a {
            lemma_slots_agree(x, x, key.0, a, s1);
            lemma_slots_agree(x, x, key.0, a, s2);
            assert(agree_on(r1, x, key.0));
            assert(agree_on(r2, x, key.0));
            assert(r1.contains_key((key.0, key.1)) == x.contains_key((key.0, key.1)));
            assert(r2.contains_key((key.0, key.1)) == x.contains_key((key.0, key.1)));
        } else {
            if exists|i: int| 0 <= i < s1.len() && s1[i].0 == key.1 {
                let i = choose|i: int| 0 <= i < s1.len() && s1[i].0 == key.1;
                assert(s1.to_multiset().count(s1[i]) > 0);
                assert(s2.contains(s1[i]));
                let j = choose|j: int| 0 <= j < s2.len() && s2[j] == s1[i];
                assert(s2[j].0 == key.1);
            } else {
                assert forall|j: int| 0 <= j < s2.len() implies s2[j].0 != key.1 by {
                    assert(s2.to_multiset().count(s2[j]) > 0);
                    assert(s1.contains(s2[j]));
                }
            }
        }
    }
    assert(r1 =~= r2);
}

/// An entry of a sequence is counted once in it when no other entry equals it.
proof fn lemma_count_one(s: Seq<(U256, U256)>, p: int)
    requires
        0 <= p < s.len(),
        distinct_slots(s),
    ensures
        s.to_multiset().count(s[p]) == 1,
    decreases s.len(),
{
    broadcast use vstd::multiset::group_multiset_axioms;
    broadcast use vstd::seq_lib::group_to_multiset_ensures;
    let t = s.drop_last();
    assert(distinct_slots(t));
    s.to_multiset_ensures();
    assert(s =~= t.push(s.last()));
    t.to_multiset_ensures();
    if p < s.len() - 1 {
        assert(t[p] == s[p]);
        lemma_count_one(t, p);
        assert(s.last() != s[p]);
    } else {
        if t.to_multiset().count(s[p]) > 0 {
            assert(t.contains(s[p]));
            let q = choose|q: int| 0 <= q < t.len() && t[q] == s[p];
            assert(s[q] == s[p]);
        }
    }
}

/// An entry of a sequence that another entry equals is counted twice or more.
proof fn lemma_count_two(s: Seq<(U256, U256)>, i: int, j: int)
    requires
        0 <= i < j < s.len(),
        s[i] == s[j],
    ensures
        s.to_multiset().count(s[i]) >= 2,
    decreases s.len(),
{
    broadcast use vstd::multiset::group_multiset_axioms;
    broadcast use vstd::seq_lib::group_to_multiset_ensures;
    let t = s.drop_last();
    assert(s =~= t.push(s.last()));
    s.to_multiset_ensures();
    t.to_multiset_ensures();
    if j < s.len() - 1 {
        assert(t[i] == s[i] && t[j] == s[j]);
        lemma_count_two(t, i, j);
    } else {
        assert(t[i] == s[i]);
        assert(t.to_multiset().count(s[i]) > 0);
    }
}

/// Two changesets make the same change: same address and wipe, and the
/// same slots, each set once, in any order.
pub open spec fn same_changeset(c1: PlainStorageChangeset, c2: PlainStorageChangeset) -> bool {
    &&& c1.address == c2.address
    &&& c1.wipe_storage == c2.wipe_storage
    &&& distinct_slots(c1.storage@)
    &&& c2.storage@.to_multiset() == c1.storage@.to_multiset()
}

/// Changesets that make the same changes, one by one, give the same table.
proof fn lemma_same_changesets(m: Map<(Address, U256), U256>, cs1: Seq<PlainStorageChangeset>, cs2: Seq<PlainStorageChangeset>)
    requires
        cs1.len() == cs2.len(),
        forall|i: int| 0 <= i < cs1.len() ==> same_changeset(#[trigger] cs1[i], cs2[i]),
    ensures
        storage_changed(m, cs1) == storage_changed(m, cs2),
    decreases cs1.len(),
{
    if cs1.len() > 0 {
        let n = cs1.len() - 1;
        assert forall|i: int| 0 <= i < cs1.drop_last().len() implies same_changeset(
            #[trigger] cs1.drop_last()[i],
            cs2.drop_last()[i],
        ) by {
            assert(cs1.drop_last()[i] == cs1[i]);
            assert(cs2.drop_last()[i] == cs2[i]);
        }
        lemma_same_changesets(m, cs1.drop_last(), cs2.drop_last());
        let c1 = cs1.last();
        let c2 = cs2.last();
        assert(same_changeset(cs1[n], cs2[n]));
        let rest = storage_changed(m, cs1.drop_last());
        let cleared = if c1.wipe_storage { rest.filter_keys(|k: (Address, U256)| k.0 != c1.address) } else { rest };
        lemma_slots_reordered(cleared, c1.address, c1.storage@, c2.storage@);
    }
}

/// Sorting the storage changesets stably by address, and the slots of each
/// by slot, does not change the storage table they produce, where no
/// changeset sets a slot twice. (A changeset that set a slot twice could
/// end with either value, since the slots are sorted unstably.)
pub proof fn lemma_sorting_keeps_storage(
    m: Map<(Address, U256), U256>,
    before: Seq<PlainStorageChangeset>,
    sorted: Seq<PlainStorageChangeset>,
    after: Seq<PlainStorageChangeset>,
)
    requires
        forall|i: int| 0 <= i < before.len() ==> distinct_slots(#[trigger] before[i].storage@),
        stably_sorted_storage(before, sorted),
        after.len() == sorted.len(),
        forall|i: int| 0 <= i < sorted.len() ==> {
            &&& #[trigger] after[i].address == sorted[i].address
            &&& after[i].wipe_storage == sorted[i].wipe_storage
            &&& sorted_slots(sorted[i].storage@, after[i].storage@)
        },
    ensures
        storage_changed(m, after) == storage_changed(m, before),
{
    assert forall|i: int| 0 <= i < sorted.len() implies same_changeset(#[trigger] sorted[i], after[i]) by {
        let c = sorted[i];
        let a = c.address;
        let pred = |e: PlainStorageChangeset| e.address == a;
        sorted.lemma_filter_contains(pred, i);
        assert(changesets_of(sorted, a) == changesets_of(before, a));
        before.lemma_filter_contains_rev(pred, c);
        let j = choose|j: int| 0 <= j < before.len() && before[j] == c;
        assert(distinct_slots(before[j].storage@));
        assert(after[i].address == sorted[i].address);
        assert(sorted_slots(sorted[i].storage@, after[i].storage@));
    }
    lemma_same_changesets(m, sorted, after);
    let r_sorted = storage_changed(m, sorted);
    let r_before = storage_changed(m, before);
    assert forall|key: (Address, U256)| #[trigger] r_sorted.contains_key(key) == r_before.contains_key(key)
        && (r_sorted.contains_key(key) ==> r_sorted[key] == r_before[key]) by {
        let a = key.0;
        lemma_storage_by_address(m, sorted, a);
        lemma_storage_by_address(m, before, a);
        assert(changesets_of(sorted, a) == changesets_of(before, a));
        assert(r_sorted.contains_key((a, key.1)) == storage_changed(m, changesets_of(sorted, a)).contains_key((a, key.1)));
        assert(r_before.contains_key((a, key.1)) == storage_changed(m, changesets_of(before, a)).contains_key((a, key.1)));
    }
    assert(r_sorted =~= r_before);
}

} // verus!
