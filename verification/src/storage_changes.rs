//! Storage change sets of a post state: per block and address, the slots
//! whose values changed, with their values before the change, and whether
//! the storage was wiped at that change.
use std::collections::BTreeMap;
use vstd::prelude::*;

use crate::keys::{block_keys, map_keys};
use crate::post_state::{
    above, at_or_below, block_map, in_prefix, lemma_map_sum_filter_le, lemma_prefix_step, split_off_blocks,
};
use crate::primitives::{Address, BlockNumber, U256};
use crate::sums::{
    map_sum, lemma_map_sum_congruent, lemma_map_sum_insert, lemma_map_sum_empty, lemma_map_sum_split,
};

verus! {

broadcast use vstd::std_specs::btree::group_btree_axioms, vstd::laws_cmp::group_laws_cmp;

/// Bytes of one 256-bit word.
pub const U256_BYTES: usize = 32;

/// Bytes of an address.
pub const ADDRESS_BYTES: usize = 20;

/// Bytes of a `u64`.
pub const U64_BYTES: usize = 8;

/// Storage for an account with the old and new values for each slot:
/// (slot -> (old, new)).
pub type StorageChangeset = BTreeMap<U256, (U256, U256)>;

/// The indicator of the storage wipe.
#[derive(Clone, Copy, Debug, PartialEq, Eq, Structural)]
pub enum StorageWipe {
    /// The storage was not wiped at this change.
    NoWipe,
    /// The storage was wiped for the first time in the current in-memory
    /// state. When writing history to the database, on the primary storage
    /// wipe the pre-existing storage will be inserted as the storage state
    /// before this transition.
    Primary,
    /// The storage had been already wiped before.
    Secondary,
}

impl Default for StorageWipe {
    fn default() -> (r: Self)
        ensures
            r == StorageWipe::NoWipe,
    {
        StorageWipe::NoWipe
    }
}

/// Whether a wipe occurred.
pub open spec fn spec_is_wiped(w: StorageWipe) -> bool {
    w is Primary || w is Secondary
}

impl StorageWipe {
    /// Returns `true` if the wipe occurred at this transition.
    pub fn is_wiped(&self) -> (r: bool)
        ensures
            r == spec_is_wiped(*self),
    {
        match self {
            StorageWipe::Primary | StorageWipe::Secondary => true,
            StorageWipe::NoWipe => false,
        }
    }

    /// Returns `true` if the primary wipe occurred at this transition.
    pub fn is_primary(&self) -> (r: bool)
        ensures
            r == (*self is Primary),
    {
        match self {
            StorageWipe::Primary => true,
            _ => false,
        }
    }
}

/// The storage state of the account before the state transition.
#[derive(Debug)]
pub struct StorageTransition {
    /// The indicator of the storage wipe.
    pub wipe: StorageWipe,
    /// The storage slots.
    pub storage: BTreeMap<U256, U256>,
}

impl StorageTransition {
    /// A transition with no wipe and no slots.
    pub fn new() -> (t: StorageTransition)
        ensures
            t.wipe == StorageWipe::NoWipe,
            t.storage@ == Map::<U256, U256>::empty(),
    {
        StorageTransition { wipe: StorageWipe::NoWipe, storage: BTreeMap::new() }
    }

    /// Size of the transition in bytes: two words per slot.
    pub fn size(&self) -> (r: usize)
        requires
            2 * U256_BYTES * self.storage@.len() <= usize::MAX,
        ensures
            r == 2 * U256_BYTES * self.storage@.len(),
    {
        (U256_BYTES * 2) * self.storage.len()
    }
}

/// Latest storage state for the account.
///
/// The `times_wiped` field indicates the number of times the storage was
/// wiped in this post state. If it is greater than 0, then the account was
/// selfdestructed at some point, and the values contained in `storage`
/// should be the only values written to the database.
#[derive(Debug)]
pub struct Storage {
    /// The number of times the storage was wiped.
    pub times_wiped: u64,
    /// The storage slots.
    pub storage: BTreeMap<U256, U256>,
}

impl Storage {
    /// Returns `true` if the storage was wiped at any point.
    pub fn wiped(&self) -> (r: bool)
        ensures
            r == (self.times_wiped > 0),
    {
        self.times_wiped > 0
    }

    /// Size of the storage in bytes: the wipe counter, and two words per slot.
    pub fn size(&self) -> (r: usize)
        requires
            U64_BYTES + self.storage@.len() * (U256_BYTES * 2) <= usize::MAX,
        ensures
            r == U64_BYTES + self.storage@.len() * (U256_BYTES * 2),
    {
        U64_BYTES + self.storage.len() * (U256_BYTES * 2)
    }
}

/// A transition in spec form: its wipe indicator and its slots.
pub type TransitionView = (StorageWipe, Map<U256, U256>);

/// The transitions of one block in spec form.
pub open spec fn view_transitions(am: BTreeMap<Address, StorageTransition>) -> Map<
    Address,
    TransitionView,
> {
    am@.map_values(|t: StorageTransition| (t.wipe, t.storage@))
}

/// Block-indexed storage change map in spec form.
pub open spec fn view_storage(m: BTreeMap<BlockNumber, BTreeMap<Address, StorageTransition>>) -> Map<
    BlockNumber,
    Map<Address, TransitionView>,
> {
    m@.map_values(|inner: BTreeMap<Address, StorageTransition>| view_transitions(inner))
}

/// The spec form has the same, finite, set of blocks.
pub proof fn lemma_view_storage_dom(m: BTreeMap<BlockNumber, BTreeMap<Address, StorageTransition>>)
    ensures
        view_storage(m).dom() == m@.dom(),
        view_storage(m).dom().finite(),
{
    assert(view_storage(m).dom() =~= m@.dom());
}

/// The spec form of one block has the same, finite, set of addresses.
pub proof fn lemma_view_transitions_dom(am: BTreeMap<Address, StorageTransition>)
    ensures
        view_transitions(am).dom() == am@.dom(),
        view_transitions(am).dom().finite(),
{
    assert(view_transitions(am).dom() =~= am@.dom());
}

/// Number of slots of one transition.
pub open spec fn transition_slots() -> spec_fn(TransitionView) -> nat {
    |t: TransitionView| t.1.len()
}

/// Number of slots over all addresses of one block.
pub open spec fn block_slots() -> spec_fn(Map<Address, TransitionView>) -> nat {
    |am: Map<Address, TransitionView>| map_sum(am, transition_slots())
}

/// Total number of recorded slots over all blocks and addresses.
pub open spec fn slot_count(m: Map<BlockNumber, Map<Address, TransitionView>>) -> nat {
    map_sum(m, block_slots())
}

/// Number of slots recorded for the addresses of one block.
fn count_block_slots(am: &BTreeMap<Address, StorageTransition>, budget: usize) -> (n: usize)
    requires
        map_sum(view_transitions(*am), transition_slots()) <= budget,
    ensures
        n == map_sum(view_transitions(*am), transition_slots()),
{
    let ghost va = view_transitions(*am);
    proof {
        lemma_view_transitions_dom(*am);
    }
    let ks = map_keys(am);
    proof {
        assert(va.filter_keys(in_prefix(ks@, 0)) =~= Map::empty());
        lemma_map_sum_empty::<Address, TransitionView>(transition_slots());
    }
    let mut acc: usize = 0;
    let mut i: usize = 0;
    while i < ks.len()
        invariant
            0 <= i <= ks@.len(),
            ks@.to_set() == am@.dom(),
            ks@.no_duplicates(),
            va == view_transitions(*am),
            va.dom() == am@.dom(),
            va.dom().finite(),
            map_sum(va, transition_slots()) <= budget,
            acc == map_sum(va.filter_keys(in_prefix(ks@, i as int)), transition_slots()),
        decreases ks@.len() - i,
    {
        let k = ks[i];
        assert(ks@.contains(k));
        let len = match am.get(&k) {
            Some(t) => t.storage.len(),
            None => 0,
        };
        proof {
            lemma_prefix_step(va, transition_slots(), ks@, i as int);
            lemma_map_sum_filter_le(va, transition_slots(), in_prefix(ks@, i + 1));
        }
        acc = acc + len;
        i = i + 1;
    }
    assert(va.filter_keys(in_prefix(ks@, ks@.len() as int)) =~= va) by {
        assert(ks@.take(ks@.len() as int) =~= ks@);
    }
    acc
}

/// Number of slots recorded over all blocks of `m`.
fn count_slots(m: &BTreeMap<BlockNumber, BTreeMap<Address, StorageTransition>>, budget: usize) -> (n:
    usize)
    requires
        slot_count(view_storage(*m)) <= budget,
    ensures
        n == slot_count(view_storage(*m)),
{
    let ghost vm = view_storage(*m);
    proof {
        lemma_view_storage_dom(*m);
    }
    let ks = block_keys(m);
    proof {
        assert(vm.filter_keys(in_prefix(ks@, 0)) =~= Map::empty());
        lemma_map_sum_empty::<BlockNumber, Map<Address, TransitionView>>(block_slots());
    }
    let mut acc: usize = 0;
    let mut i: usize = 0;
    while i < ks.len()
        invariant
            0 <= i <= ks@.len(),
            ks@.to_set() == m@.dom(),
            ks@.no_duplicates(),
            vm == view_storage(*m),
            vm.dom() == m@.dom(),
            vm.dom().finite(),
            slot_count(vm) <= budget,
            acc == map_sum(vm.filter_keys(in_prefix(ks@, i as int)), block_slots()),
        decreases ks@.len() - i,
    {
        let k = ks[i];
        assert(ks@.contains(k));
        proof {
            lemma_prefix_step(vm, block_slots(), ks@, i as int);
            lemma_map_sum_filter_le(vm, block_slots(), in_prefix(ks@, i + 1));
        }
        let len = match m.get(&k) {
            Some(am) => count_block_slots(am, budget - acc),
            None => 0,
        };
        acc = acc + len;
        i = i + 1;
    }
    assert(vm.filter_keys(in_prefix(ks@, ks@.len() as int)) =~= vm) by {
        assert(ks@.take(ks@.len() as int) =~= ks@);
    }
    acc
}

/// Bytes of one transition beside its address: the address and two words
/// per slot.
pub open spec fn transition_bytes() -> spec_fn(TransitionView) -> nat {
    |t: TransitionView| (ADDRESS_BYTES + 2 * U256_BYTES * t.1.len()) as nat
}

/// Bytes of all transitions of one block.
pub open spec fn block_bytes() -> spec_fn(Map<Address, TransitionView>) -> nat {
    |am: Map<Address, TransitionView>| map_sum(am, transition_bytes())
}

/// Bytes of all recorded transitions: for each block and address, the
/// address and two words per slot.
pub open spec fn storage_bytes(m: Map<BlockNumber, Map<Address, TransitionView>>) -> nat {
    map_sum(m, block_bytes())
}

/// Bytes of the transitions of one block.
fn sum_block_bytes(am: &BTreeMap<Address, StorageTransition>, budget: usize) -> (n: usize)
    requires
        map_sum(view_transitions(*am), transition_bytes()) <= budget,
    ensures
        n == map_sum(view_transitions(*am), transition_bytes()),
{
    let ghost va = view_transitions(*am);
    proof {
        lemma_view_transitions_dom(*am);
    }
    let ks = map_keys(am);
    proof {
        assert(va.filter_keys(in_prefix(ks@, 0)) =~= Map::empty());
        lemma_map_sum_empty::<Address, TransitionView>(transition_bytes());
    }
    let mut acc: usize = 0;
    let mut i: usize = 0;
    while i < ks.len()
        invariant
            0 <= i <= ks@.len(),
            ks@.to_set() == am@.dom(),
            ks@.no_duplicates(),
            va == view_transitions(*am),
            va.dom() == am@.dom(),
            va.dom().finite(),
            map_sum(va, transition_bytes()) <= budget,
            acc == map_sum(va.filter_keys(in_prefix(ks@, i as int)), transition_bytes()),
        decreases ks@.len() - i,
    {
        let k = ks[i];
        assert(ks@.contains(k));
        proof {
            lemma_prefix_step(va, transition_bytes(), ks@, i as int);
            lemma_map_sum_filter_le(va, transition_bytes(), in_prefix(ks@, i + 1));
        }
        let len = match am.get(&k) {
            Some(t) => {
                assert(va[k].1 == t.storage@);
                let words = t.storage.len();
                assert(ADDRESS_BYTES + 2 * U256_BYTES * words <= budget);
                ADDRESS_BYTES + 2 * U256_BYTES * words
            },
            None => 0,
        };
        acc = acc + len;
        i = i + 1;
    }
    assert(va.filter_keys(in_prefix(ks@, ks@.len() as int)) =~= va) by {
        assert(ks@.take(ks@.len() as int) =~= ks@);
    }
    acc
}

/// Bytes of all transitions of all blocks of `m`.
fn sum_storage_bytes(m: &BTreeMap<BlockNumber, BTreeMap<Address, StorageTransition>>, budget: usize) -> (n:
    usize)
    requires
        storage_bytes(view_storage(*m)) <= budget,
    ensures
        n == storage_bytes(view_storage(*m)),
{
    let ghost vm = view_storage(*m);
    proof {
        lemma_view_storage_dom(*m);
    }
    let ks = block_keys(m);
    proof {
        assert(vm.filter_keys(in_prefix(ks@, 0)) =~= Map::empty());
        lemma_map_sum_empty::<BlockNumber, Map<Address, TransitionView>>(block_bytes());
    }
    let mut acc: usize = 0;
    let mut i: usize = 0;
    while i < ks.len()
        invariant
            0 <= i <= ks@.len(),
            ks@.to_set() == m@.dom(),
            ks@.no_duplicates(),
            vm == view_storage(*m),
            vm.dom() == m@.dom(),
            vm.dom().finite(),
            storage_bytes(vm) <= budget,
            acc == map_sum(vm.filter_keys(in_prefix(ks@, i as int)), block_bytes()),
        decreases ks@.len() - i,
    {
        let k = ks[i];
        assert(ks@.contains(k));
        proof {
            lemma_prefix_step(vm, block_bytes(), ks@, i as int);
            lemma_map_sum_filter_le(vm, block_bytes(), in_prefix(ks@, i + 1));
        }
        let len = match m.get(&k) {
            Some(am) => sum_block_bytes(am, budget - acc),
            None => 0,
        };
        acc = acc + len;
        i = i + 1;
    }
    assert(vm.filter_keys(in_prefix(ks@, ks@.len() as int)) =~= vm) by {
        assert(ks@.take(ks@.len() as int) =~= ks@);
    }
    acc
}

/// `m` after inserting, in order, each `(slot, value)` of `s` whose slot
/// has no entry yet.
pub open spec fn fill_absent(m: Map<U256, U256>, s: Seq<(U256, U256)>) -> Map<U256, U256>
    decreases s.len(),
{
    if s.len() == 0 {
        m
    } else {
        let r = fill_absent(m, s.drop_last());
        let kv = s.last();
        if r.contains_key(kv.0) {
            r
        } else {
            r.insert(kv.0, kv.1)
        }
    }
}

/// Filling only adds keys, and a longer prefix adds at least those of a
/// shorter one; a finite map stays finite.
pub proof fn lemma_fill_absent_grows(m: Map<U256, U256>, s: Seq<(U256, U256)>, i: int, j: int)
    requires
        m.dom().finite(),
        0 <= i <= j <= s.len(),
    ensures
        fill_absent(m, s.take(j)).dom().finite(),
        m.dom().subset_of(fill_absent(m, s.take(i)).dom()),
        fill_absent(m, s.take(i)).dom().subset_of(fill_absent(m, s.take(j)).dom()),
        m.len() <= fill_absent(m, s.take(i)).len() <= fill_absent(m, s.take(j)).len(),
    decreases j,
{
    if j == 0 {
        assert(s.take(0) =~= Seq::<(U256, U256)>::empty());
    } else {
        assert(s.take(j).drop_last() =~= s.take(j - 1));
        if i == j {
            lemma_fill_absent_grows(m, s, i - 1, j - 1);
            assert(s.take(i).drop_last() =~= s.take(i - 1));
        } else {
            lemma_fill_absent_grows(m, s, i, j - 1);
        }
    }
    vstd::set_lib::lemma_len_subset(m.dom(), fill_absent(m, s.take(i)).dom());
    vstd::set_lib::lemma_len_subset(
        fill_absent(m, s.take(i)).dom(),
        fill_absent(m, s.take(j)).dom(),
    );
}

/// The transition recorded for `address` at `block`, or an empty one.
pub open spec fn prior_transition(
    m: Map<BlockNumber, Map<Address, TransitionView>>,
    block: BlockNumber,
    address: Address,
) -> TransitionView {
    let bm = block_map(m, block);
    if bm.contains_key(address) {
        bm[address]
    } else {
        (StorageWipe::NoWipe, Map::empty())
    }
}

/// The number of slots that `storage` adds to `prior`.
pub open spec fn added_slots(prior: Map<U256, U256>, storage: Seq<(U256, U256)>) -> int {
    fill_absent(prior, storage).len() - prior.len()
}

/// Whether the storage of `a` was wiped at block `b`.
pub open spec fn wiped_at(m: Map<BlockNumber, Map<Address, TransitionView>>, a: Address, b: BlockNumber) -> bool {
    m.contains_key(b) && m[b].contains_key(a) && spec_is_wiped(m[b][a].0)
}

/// Whether some block strictly between `target` and `b` wiped `a`.
pub open spec fn wiped_before(
    m: Map<BlockNumber, Map<Address, TransitionView>>,
    target: BlockNumber,
    b: BlockNumber,
    a: Address,
) -> bool {
    exists|b2: BlockNumber| target < b2 < b && #[trigger] wiped_at(m, a, b2)
}

/// The blocks of `p` at which `a` was wiped.
pub open spec fn wipe_blocks(
    m: Map<BlockNumber, Map<Address, TransitionView>>,
    a: Address,
    p: Set<BlockNumber>,
) -> Set<BlockNumber> {
    p.filter(|b: BlockNumber| wiped_at(m, a, b))
}

/// The transitions kept by `retain_above(target)`: the blocks above
/// `target`, where the first wipe of an address becomes primary and each
/// later one secondary.
pub open spec fn rewiped(m: Map<BlockNumber, Map<Address, TransitionView>>, target: BlockNumber) -> Map<
    BlockNumber,
    Map<Address, TransitionView>,
> {
    Map::new(
        |b: BlockNumber| m.contains_key(b) && b > target,
        |b: BlockNumber| rewiped_block(m, target, b),
    )
}

/// The transitions of block `b` after `retain_above(target)`.
pub open spec fn rewiped_block(
    m: Map<BlockNumber, Map<Address, TransitionView>>,
    target: BlockNumber,
    b: BlockNumber,
) -> Map<Address, TransitionView> {
    m[b].map_entries(|a: Address, t: TransitionView| rewiped_transition(m, target, b, a, t))
}

/// The transition `t` of `a` at block `b` after `retain_above(target)`.
pub open spec fn rewiped_transition(
    m: Map<BlockNumber, Map<Address, TransitionView>>,
    target: BlockNumber,
    b: BlockNumber,
    a: Address,
    t: TransitionView,
) -> TransitionView {
    if spec_is_wiped(t.0) {
        if wiped_before(m, target, b, a) {
            (StorageWipe::Secondary, t.1)
        } else {
            (StorageWipe::Primary, t.1)
        }
    } else {
        t
    }
}

/// Adding one block to the prefix adds one to the wipe count of `a` exactly
/// when `a` was wiped at that block.
proof fn lemma_wipe_count_step(
    m: Map<BlockNumber, Map<Address, TransitionView>>,
    ks: Seq<BlockNumber>,
    i: int,
    a: Address,
)
    requires
        0 <= i < ks.len(),
        ks.no_duplicates(),
    ensures
        wipe_blocks(m, a, ks.take(i + 1).to_set()).len() == wipe_blocks(
            m,
            a,
            ks.take(i).to_set(),
        ).len() + if wiped_at(m, a, ks[i]) {
            1int
        } else {
            0int
        },
        wipe_blocks(m, a, ks.take(i).to_set()).len() <= i,
{
    let b = ks[i];
    let before = ks.take(i).to_set();
    let after = ks.take(i + 1).to_set();
    assert(ks.take(i + 1) =~= ks.take(i).push(b));
    ks.take(i).lemma_push_to_set_commute(b);
    assert(after =~= before.insert(b));
    assert(!before.contains(b)) by {
        if before.contains(b) {
            assert(ks.take(i).contains(b));
            let j = choose|j: int| 0 <= j < i && #[trigger] ks.take(i)[j] == b;
            assert(ks[j] == ks[i]);
        }
    }
    ks.take(i).lemma_cardinality_of_set();
    vstd::seq_lib::seq_to_set_is_finite(ks.take(i));
    vstd::set_lib::lemma_len_subset(wipe_blocks(m, a, before), before);
    if wiped_at(m, a, b) {
        assert(wipe_blocks(m, a, after) =~= wipe_blocks(m, a, before).insert(b));
    } else {
        assert(wipe_blocks(m, a, after) =~= wipe_blocks(m, a, before));
    }
}

/// With the blocks above `target` in ascending order, `a` was wiped at a
/// block before the `i`-th one exactly when the first `i` blocks hold a wipe
/// of `a`.
proof fn lemma_wiped_before_iff(
    m: Map<BlockNumber, Map<Address, TransitionView>>,
    target: BlockNumber,
    ks: Seq<BlockNumber>,
    i: int,
    a: Address,
)
    requires
        0 <= i < ks.len(),
        ks.to_set() == m.filter_keys(above(target)).dom(),
        forall|x: int, y: int| 0 <= x < y < ks.len() ==> ks[x] < ks[y],
    ensures
        wiped_before(m, target, ks[i], a) <==> wipe_blocks(m, a, ks.take(i).to_set()).len() > 0,
{
    let p = wipe_blocks(m, a, ks.take(i).to_set());
    vstd::seq_lib::seq_to_set_is_finite(ks.take(i));
    vstd::set_lib::lemma_set_subset_finite(ks.take(i).to_set(), p);
    if wiped_before(m, target, ks[i], a) {
        let b2 = choose|b2: BlockNumber| target < b2 < ks[i] && #[trigger] wiped_at(m, a, b2);
        assert(m.filter_keys(above(target)).dom().contains(b2));
        assert(ks.to_set().contains(b2));
        let j = choose|j: int| 0 <= j < ks.len() && ks[j] == b2;
        if j >= i {
            if j > i {
                assert(ks[i] < ks[j]);
            }
        }
        assert(ks.take(i)[j] == b2);
        assert(ks.take(i).contains(b2));
        assert(p.contains(b2));
        vstd::set_lib::lemma_set_empty_equivalency_len(p);
    }
    if p.len() > 0 {
        vstd::set_lib::lemma_set_empty_equivalency_len(p);
        let b2 = p.choose();
        assert(p.contains(b2));
        assert(ks.take(i).contains(b2));
        let j = choose|j: int| 0 <= j < i && #[trigger] ks.take(i)[j] == b2;
        assert(ks[j] < ks[i]);
        assert(ks.to_set().contains(b2));
        assert(m.filter_keys(above(target)).dom().contains(b2));
        assert(wiped_at(m, a, b2));
    }
}

/// `t` holds, for each address, how many blocks of `p` wiped it, and only
/// the addresses wiped at least once.
pub open spec fn times_match(
    t: Map<Address, u64>,
    m: Map<BlockNumber, Map<Address, TransitionView>>,
    p: Set<BlockNumber>,
) -> bool {
    forall|a: Address|
        #![trigger t.contains_key(a)]
        #![trigger wipe_blocks(m, a, p)]
        (t.contains_key(a) <==> wipe_blocks(m, a, p).len() > 0) && (t.contains_key(a) ==> t[a]
            == wipe_blocks(m, a, p).len())
}

/// The blocks among the first `i` of `ks`, as a set.
pub open spec fn prefix_set(ks: Seq<BlockNumber>, i: int) -> Set<BlockNumber> {
    ks.take(i).to_set()
}

/// Marks the wipes of the `i`-th block above `target` as primary or
/// secondary, by how many earlier blocks wiped the same address, and counts
/// them into `times`.
fn rewipe_block(
    am: &mut BTreeMap<Address, StorageTransition>,
    times: &mut BTreeMap<Address, u64>,
    Ghost(m): Ghost<Map<BlockNumber, Map<Address, TransitionView>>>,
    Ghost(target): Ghost<BlockNumber>,
    Ghost(ks): Ghost<Seq<BlockNumber>>,
    Ghost(i): Ghost<int>,
)
    requires
        0 <= i < ks.len(),
        ks.len() <= usize::MAX,
        ks.no_duplicates(),
        ks.to_set() == m.filter_keys(above(target)).dom(),
        forall|x: int, y: int| 0 <= x < y < ks.len() ==> ks[x] < ks[y],
        view_transitions(*old(am)) == m[ks[i]],
        times_match(old(times)@, m, prefix_set(ks, i)),
    ensures
        view_transitions(*final(am)) == rewiped_block(m, target, ks[i]),
        times_match(final(times)@, m, prefix_set(ks, i + 1)),
{
    let ghost b = ks[i];
    let ghost am0 = view_transitions(*am);
    let ghost t0 = times@;
    proof {
        lemma_view_transitions_dom(*am);
        assert(ks.contains(b));
        assert(m.filter_keys(above(target)).dom().contains(b));
    }
    let aks = map_keys(am);
    let mut j: usize = 0;
    while j < aks.len()
        invariant
            0 <= j <= aks@.len(),
            0 <= i < ks.len(),
            ks.len() <= usize::MAX,
            ks.no_duplicates(),
            ks.to_set() == m.filter_keys(above(target)).dom(),
            forall|x: int, y: int| 0 <= x < y < ks.len() ==> ks[x] < ks[y],
            b == ks[i],
            m.contains_key(b),
            am0 == m[b],
            aks@.to_set() == am0.dom(),
            aks@.no_duplicates(),
            view_transitions(*am).dom() == am0.dom(),
            forall|a: Address|
                #![trigger view_transitions(*am)[a]]
                am0.contains_key(a) ==> view_transitions(*am)[a] == if aks@.take(
                    j as int,
                ).contains(a) {
                    rewiped_transition(m, target, b, a, am0[a])
                } else {
                    am0[a]
                },
            times_match(t0, m, prefix_set(ks, i)),
            forall|a: Address|
                #![trigger times@.contains_key(a)]
                #![trigger times@[a]]
                {
                    let p = if aks@.take(j as int).contains(a) {
                        prefix_set(ks, i + 1)
                    } else {
                        prefix_set(ks, i)
                    };
                    &&& times@.contains_key(a) <==> wipe_blocks(m, a, p).len() > 0
                    &&& times@.contains_key(a) ==> times@[a] == wipe_blocks(m, a, p).len()
                },
        decreases aks@.len() - j,
    {
        let a = aks[j];
        let ghost before = aks@.take(j as int);
        let ghost vb = view_transitions(*am);
        proof {
            assert(aks@.take(j + 1) =~= before.push(a));
            assert(!before.contains(a)) by {
                if before.contains(a) {
                    let x = choose|x: int| 0 <= x < j && #[trigger] before[x] == a;
                    assert(aks@[x] == aks@[j as int]);
                }
            }
            assert(aks@.contains(a));
            assert(am0.contains_key(a));
            assert(view_transitions(*am)[a] == am0[a]);
            assert forall|a2: Address| aks@.take(j + 1).contains(a2) <==> (before.contains(a2)
                || a2 == a) by {
                if aks@.take(j + 1).contains(a2) && a2 != a {
                    let x = choose|x: int| 0 <= x < j + 1 && #[trigger] aks@.take(j + 1)[x] == a2;
                    assert(before[x] == a2);
                }
                if a2 == a {
                    assert(aks@.take(j + 1)[j as int] == a);
                }
            }
            lemma_wipe_count_step(m, ks, i, a);
            lemma_wiped_before_iff(m, target, ks, i, a);
            assert(times@.contains_key(a) <==> wipe_blocks(m, a, prefix_set(ks, i)).len() > 0);
        }
        let mut t = am.remove(&a).unwrap();
        if t.wipe.is_wiped() {
            let count: u64 = match times.get(&a) {
                Some(c) => *c,
                None => 0,
            };
            assert(count == wipe_blocks(m, a, prefix_set(ks, i)).len());
            t.wipe = if count == 0 {
                StorageWipe::Primary
            } else {
                StorageWipe::Secondary
            };
            times.insert(a, count + 1);
        }
        am.insert(a, t);
        proof {
            assert forall|a2: Address| am0.contains_key(a2) implies view_transitions(*am)[a2] == if aks@.take(
                j + 1,
            ).contains(a2) {
                rewiped_transition(m, target, b, a2, am0[a2])
            } else {
                am0[a2]
            } by {
                if a2 != a {
                    assert(view_transitions(*am)[a2] == vb[a2]);
                }
            }
            assert(view_transitions(*am).dom() =~= am0.dom());
        }
        j = j + 1;
    }
    proof {
        assert(aks@.take(aks@.len() as int) =~= aks@);
        assert(view_transitions(*am) =~= rewiped_block(m, target, b));
        assert forall|a: Address| #![trigger wipe_blocks(m, a, prefix_set(ks, i + 1))]
            !am0.contains_key(a) implies wipe_blocks(m, a, prefix_set(ks, i + 1)).len()
            == wipe_blocks(m, a, prefix_set(ks, i)).len() by {
            lemma_wipe_count_step(m, ks, i, a);
        }
    }
}

/// A mapping of `block -> account -> slot -> old value` that holds which
/// slots were changed, and what their values were prior to that change.
#[derive(Debug)]
pub struct StorageChanges {
    /// The inner mapping of block changes.
    pub inner: BTreeMap<BlockNumber, BTreeMap<Address, StorageTransition>>,
    /// Hand-tracked change size.
    pub size: usize,
}

impl View for StorageChanges {
    type V = Map<BlockNumber, Map<Address, TransitionView>>;

    open spec fn view(&self) -> Self::V {
        view_storage(self.inner)
    }
}

impl StorageChanges {
    /// The hand-tracked size equals the number of recorded slots.
    pub open spec fn wf(&self) -> bool {
        self.size == slot_count(self@)
    }

    /// An empty change set.
    pub fn new() -> (r: StorageChanges)
        ensures
            r@ == Map::<BlockNumber, Map<Address, TransitionView>>::empty(),
            r.size == 0,
            r.wf(),
    {
        let r = StorageChanges { inner: BTreeMap::new(), size: 0 };
        assert(r@ =~= Map::empty());
        proof {
            lemma_map_sum_empty::<BlockNumber, Map<Address, TransitionView>>(block_slots());
        }
        r
    }

    /// Insert storage entries for specified block number and address. A
    /// wipe replaces the recorded indicator; slots already recorded keep
    /// their value, and of repeated new slots the first one counts.
    pub fn insert_for_block_and_address(
        &mut self,
        block: BlockNumber,
        address: Address,
        wipe: StorageWipe,
        storage: Vec<(U256, U256)>,
    )
        requires
            old(self).size + added_slots(prior_transition(old(self)@, block, address).1, storage@)
                <= usize::MAX,
        ensures
            ({
                let prior = prior_transition(old(self)@, block, address);
                let wipe_after = if spec_is_wiped(wipe) {
                    wipe
                } else {
                    prior.0
                };
                &&& final(self)@ == old(self)@.insert(
                    block,
                    block_map(old(self)@, block).insert(
                        address,
                        (wipe_after, fill_absent(prior.1, storage@)),
                    ),
                )
                &&& final(self).size == old(self).size + added_slots(prior.1, storage@)
            }),
            old(self).wf() ==> final(self).wf(),
    {
        let ghost m0 = self@;
        proof {
            lemma_view_storage_dom(self.inner);
        }
        let mut block_entry = match self.inner.remove(&block) {
            Some(entry) => entry,
            None => BTreeMap::new(),
        };
        let ghost bm0 = view_transitions(block_entry);
        assert(bm0 =~= block_map(m0, block));
        proof {
            lemma_view_transitions_dom(block_entry);
        }
        let mut storage_entry = match block_entry.remove(&address) {
            Some(entry) => entry,
            None => StorageTransition::new(),
        };
        let ghost prior = prior_transition(m0, block, address);
        assert(storage_entry.wipe == prior.0 && storage_entry.storage@ =~= prior.1);
        if wipe.is_wiped() {
            storage_entry.wipe = wipe;
        }
        let ghost size0 = self.size;
        let ghost inner_mid = self.inner@;
        let ghost wipe_after = storage_entry.wipe;
        assert(wipe_after == if spec_is_wiped(wipe) { wipe } else { prior.0 });
        let mut i: usize = 0;
        proof {
            assert(storage@.take(0) =~= Seq::<(U256, U256)>::empty());
            lemma_fill_absent_grows(prior.1, storage@, 0, storage@.len() as int);
            assert(storage@.take(storage@.len() as int) =~= storage@);
        }
        while i < storage.len()
            invariant
                0 <= i <= storage@.len(),
                self.inner@ == inner_mid,
                storage_entry.wipe == wipe_after,
                prior.1.dom().finite(),
                storage_entry.storage@ == fill_absent(prior.1, storage@.take(i as int)),
                self.size == size0 + fill_absent(prior.1, storage@.take(i as int)).len()
                    - prior.1.len(),
                size0 + fill_absent(prior.1, storage@).len() - prior.1.len() <= usize::MAX,
            decreases storage@.len() - i,
        {
            let (slot, value) = storage[i];
            proof {
                assert(storage@.take(i + 1).drop_last() =~= storage@.take(i as int));
                lemma_fill_absent_grows(prior.1, storage@, i + 1, storage@.len() as int);
                assert(storage@.take(storage@.len() as int) =~= storage@);
                lemma_fill_absent_grows(prior.1, storage@, i as int, i + 1);
            }
            if !storage_entry.storage.contains_key(&slot) {
                storage_entry.storage.insert(slot, value);
                self.size = self.size + 1;
            }
            i = i + 1;
        }
        assert(storage@.take(storage@.len() as int) =~= storage@);
        let ghost t1 = (storage_entry.wipe, storage_entry.storage@);
        block_entry.insert(address, storage_entry);
        let ghost bm1 = view_transitions(block_entry);
        assert(bm1 =~= bm0.insert(address, t1));
        self.inner.insert(block, block_entry);
        assert(self@ =~= m0.insert(block, bm1));
        proof {
            lemma_map_sum_insert(m0, block_slots(), block, bm1);
            lemma_map_sum_insert(bm0, transition_slots(), address, t1);
            if bm0.contains_key(address) {
                assert(prior == bm0[address]);
            } else {
                assert(prior.1 =~= Map::empty());
            }
        }
    }

    /// Drain and return any entries above the target block number.
    pub fn drain_above(&mut self, target_block: BlockNumber) -> (evicted: BTreeMap<
        BlockNumber,
        BTreeMap<Address, StorageTransition>,
    >)
        requires
            slot_count(old(self)@.filter_keys(above(target_block))) <= old(self).size,
        ensures
            view_storage(evicted) == old(self)@.filter_keys(above(target_block)),
            final(self)@ == old(self)@.filter_keys(at_or_below(target_block)),
            final(self).size == old(self).size - slot_count(
                old(self)@.filter_keys(above(target_block)),
            ),
            old(self).wf() ==> final(self).wf(),
    {
        let ghost m0 = self@;
        let evicted = split_off_blocks(&mut self.inner, target_block, true);
        assert(view_storage(evicted) =~= m0.filter_keys(above(target_block)));
        assert(self@ =~= m0.filter_keys(at_or_below(target_block)));
        let n = count_slots(&evicted, self.size);
        self.size = self.size - n;
        proof {
            lemma_view_storage_dom(old(self).inner);
            lemma_map_sum_split(m0, block_slots(), above(target_block));
            assert(m0.filter_keys(|k: BlockNumber| !above(target_block)(k)) =~= m0.filter_keys(
                at_or_below(target_block),
            ));
        }
        evicted
    }

    /// Retain entries only above specified block number. Of the wipes of an
    /// address in the kept blocks, the first becomes primary and every later
    /// one secondary; returns, for each address wiped in a kept block, the
    /// number of kept blocks that wiped it.
    pub fn retain_above(&mut self, target_block: BlockNumber) -> (times_wiped: BTreeMap<Address, u64>)
        requires
            slot_count(old(self)@.filter_keys(at_or_below(target_block))) <= old(self).size,
        ensures
            final(self)@ == rewiped(old(self)@, target_block),
            final(self).size == old(self).size - slot_count(
                old(self)@.filter_keys(at_or_below(target_block)),
            ),
            times_match(
                times_wiped@,
                old(self)@,
                old(self)@.filter_keys(above(target_block)).dom(),
            ),
            old(self).wf() ==> final(self).wf(),
    {
        let ghost m0 = self@;
        proof {
            lemma_view_storage_dom(self.inner);
        }
        let dropped = split_off_blocks(&mut self.inner, target_block, false);
        assert(view_storage(dropped) =~= m0.filter_keys(at_or_below(target_block)));
        let ghost k0 = m0.filter_keys(above(target_block));
        assert(self@ =~= k0);
        let n = count_slots(&dropped, self.size);
        self.size = self.size - n;
        let ks = block_keys(&self.inner);
        let mut times: BTreeMap<Address, u64> = BTreeMap::new();
        proof {
            assert(ks@.take(0).to_set() =~= Set::empty());
            assert forall|a: Address| #![trigger wipe_blocks(m0, a, prefix_set(ks@, 0))]
                wipe_blocks(m0, a, prefix_set(ks@, 0)).len() == 0 by {
                assert(wipe_blocks(m0, a, prefix_set(ks@, 0)) =~= Set::empty());
            }
        }
        let ghost size1 = self.size;
        let mut i: usize = 0;
        while i < ks.len()
            invariant
                0 <= i <= ks@.len(),
                ks@.to_set() == k0.dom(),
                ks@.no_duplicates(),
                forall|x: int, y: int| 0 <= x < y < ks@.len() ==> ks@[x] < ks@[y],
                k0 == m0.filter_keys(above(target_block)),
                self.size == size1,
                self@.dom() == k0.dom(),
                forall|b: BlockNumber|
                    #![trigger self@[b]]
                    k0.contains_key(b) ==> self@[b] == if ks@.take(i as int).contains(b) {
                        rewiped_block(m0, target_block, b)
                    } else {
                        m0[b]
                    },
                times_match(times@, m0, prefix_set(ks@, i as int)),
            decreases ks@.len() - i,
        {
            let b = ks[i];
            let ghost vb = self@;
            proof {
                assert(ks@.contains(b));
                assert(k0.contains_key(b));
                assert(!ks@.take(i as int).contains(b)) by {
                    if ks@.take(i as int).contains(b) {
                        let x = choose|x: int| 0 <= x < i && #[trigger] ks@.take(i as int)[x] == b;
                        assert(ks@[x] == ks@[i as int]);
                    }
                }
                assert forall|b2: BlockNumber| ks@.take(i + 1).contains(b2) <==> (ks@.take(
                    i as int,
                ).contains(b2) || b2 == b) by {
                    if ks@.take(i + 1).contains(b2) && b2 != b {
                        let x = choose|x: int|
                            0 <= x < i + 1 && #[trigger] ks@.take(i + 1)[x] == b2;
                        assert(ks@.take(i as int)[x] == b2);
                    }
                    if b2 == b {
                        assert(ks@.take(i + 1)[i as int] == b);
                    }
                }
            }
            assert(vb[b] == m0[b]);
            assert(vb[b] == view_transitions(self.inner@[b]));
            let mut am = self.inner.remove(&b).unwrap();
            assert(view_transitions(am) == m0[b]);
            rewipe_block(
                &mut am,
                &mut times,
                Ghost(m0),
                Ghost(target_block),
                Ghost(ks@),
                Ghost(i as int),
            );
            self.inner.insert(b, am);
            proof {
                assert(self@.dom() =~= k0.dom());
                assert forall|b2: BlockNumber| k0.contains_key(b2) implies self@[b2] == if ks@.take(
                    i + 1,
                ).contains(b2) {
                    rewiped_block(m0, target_block, b2)
                } else {
                    m0[b2]
                } by {
                    if b2 != b {
                        assert(self@[b2] == vb[b2]);
                    }
                }
            }
            i = i + 1;
        }
        proof {
            assert(ks@.take(ks@.len() as int) =~= ks@);
            assert(self@ =~= rewiped(m0, target_block));
            assert(prefix_set(ks@, ks@.len() as int) == k0.dom());
            lemma_map_sum_split(m0, block_slots(), above(target_block));
            assert(m0.filter_keys(|k: BlockNumber| !above(target_block)(k)) =~= m0.filter_keys(
                at_or_below(target_block),
            ));
            vstd::set_lib::lemma_set_subset_finite(m0.dom(), k0.dom());
            assert forall|b: BlockNumber| #[trigger] k0.contains_key(b) implies block_slots()(k0[b])
                == block_slots()(self@[b]) by {
                assert(m0[b].dom().finite()) by {
                    lemma_view_transitions_dom(old(self).inner@[b]);
                }
                assert(m0[b].dom() =~= rewiped_block(m0, target_block, b).dom());
                lemma_map_sum_congruent(m0[b], rewiped_block(m0, target_block, b), transition_slots());
            }
            lemma_map_sum_congruent(k0, self@, block_slots());
        }
        times
    }
}


/// After `retain_above(target)`, an address has at most one primary wipe
/// among the kept blocks: a primary wipe at a later block would follow a
/// wipe, and so be secondary.
pub proof fn lemma_single_primary_wipe(
    m: Map<BlockNumber, Map<Address, TransitionView>>,
    target: BlockNumber,
    a: Address,
    b1: BlockNumber,
    b2: BlockNumber,
)
    requires
        rewiped(m, target).contains_key(b1),
        rewiped(m, target).contains_key(b2),
        rewiped(m, target)[b1].contains_key(a),
        rewiped(m, target)[b2].contains_key(a),
        rewiped(m, target)[b1][a].0 is Primary,
        rewiped(m, target)[b2][a].0 is Primary,
    ensures
        b1 == b2,
{
    if b1 < b2 {
        assert(wiped_at(m, a, b1));
        assert(wiped_before(m, target, b2, a));
    } else if b2 < b1 {
        assert(wiped_at(m, a, b2));
        assert(wiped_before(m, target, b1, a));
    }
}

/// `retain_above(target)` keeps which transitions were wipes and their
/// slots; the first wipe of an address above `target` becomes primary.
pub proof fn lemma_rewipe_keeps_wipes(
    m: Map<BlockNumber, Map<Address, TransitionView>>,
    target: BlockNumber,
    a: Address,
    b: BlockNumber,
)
    requires
        m.contains_key(b),
        b > target,
        m[b].contains_key(a),
    ensures
        rewiped(m, target)[b].contains_key(a),
        spec_is_wiped(rewiped(m, target)[b][a].0) == spec_is_wiped(m[b][a].0),
        rewiped(m, target)[b][a].1 == m[b][a].1,
        spec_is_wiped(m[b][a].0) && !wiped_before(m, target, b, a) ==> rewiped(m, target)[b][a].0 is Primary,
{
}


impl StorageChanges {
    /// Size of the change set in bytes: for each block and address, the
    /// address and two words per recorded slot.
    pub fn size(&self) -> (r: usize)
        requires
            storage_bytes(self@) <= usize::MAX,
        ensures
            r == storage_bytes(self@),
    {
        sum_storage_bytes(&self.inner, usize::MAX)
    }
}

} // verus!
