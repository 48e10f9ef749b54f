use perf_metrics::bundle::{BundleStateDataRef, ExecutionData};
use perf_metrics::canonical_chain::{BlockNumHash, CanonicalChain};
use perf_metrics::keys::{block_keys, map_keys};
use std::collections::BTreeMap;

fn h(n: u128) -> (u128, u128) {
    (n, n + 1)
}

fn chain_of(pairs: &[(u64, u128)]) -> CanonicalChain {
    let mut m = BTreeMap::new();
    for (n, x) in pairs {
        m.insert(*n, h(*x));
    }
    CanonicalChain::new(m)
}

#[test]
fn canonical_hash_and_number() {
    let c = chain_of(&[(5, 50), (7, 70), (9, 50)]);
    assert_eq!(c.canonical_hash(&7), Some(h(70)));
    assert_eq!(c.canonical_hash(&8), None);
    assert_eq!(c.canonical_number(&h(50)), Some(5));
    assert_eq!(c.canonical_number(&h(70)), Some(7));
    assert_eq!(c.canonical_number(&h(1)), None);
}

#[test]
fn tip_is_highest_block_or_default() {
    let c = chain_of(&[(5, 50), (9, 90), (7, 70)]);
    let t = c.tip();
    assert_eq!((t.number, t.hash), (9, h(90)));
    let e = chain_of(&[]);
    let t = e.tip();
    assert_eq!((t.number, t.hash), (0, (0, 0)));
    let d = BlockNumHash::default();
    assert_eq!(d.number, 0);
}

#[test]
fn extend_later_pairs_win() {
    let mut c = chain_of(&[(1, 10)]);
    c.extend(vec![(2, h(20)), (1, h(11)), (2, h(21)), (3, h(30))]);
    assert_eq!(c.iter(), vec![(1, h(11)), (2, h(21)), (3, h(30))]);
    let mut c2 = chain_of(&[(4, 4)]);
    c2.replace(BTreeMap::new());
    assert!(c2.inner().is_empty());
}

#[test]
fn retain_keeps_blocks_the_predicate_accepts() {
    let mut c = chain_of(&[(1, 10), (2, 20), (3, 30), (4, 40)]);
    c.retain(|n, _| *n > 2);
    assert_eq!(c.into_iter(), vec![(3, h(30)), (4, h(40))]);
}

#[test]
fn ordered_keys() {
    let mut m = BTreeMap::new();
    m.insert(30u64, 'a');
    m.insert(10u64, 'b');
    m.insert(20u64, 'c');
    assert_eq!(block_keys(&m), vec![10, 20, 30]);
    let mut ks = map_keys(&m);
    ks.sort();
    assert_eq!(ks, vec![10, 20, 30]);
}

#[test]
fn bundle_block_hash_prefers_sidechain() {
    let mut side = BTreeMap::new();
    side.insert(5u64, h(500));
    let mut canon = BTreeMap::new();
    canon.insert(5u64, h(5));
    canon.insert(4u64, h(4));
    let outcome = 77u32;
    let fork = BlockNumHash { number: 4, hash: h(4) };
    let r = BundleStateDataRef {
        execution_outcome: &outcome,
        sidechain_block_hashes: &side,
        canonical_block_hashes: &canon,
        canonical_fork: fork,
    };
    assert_eq!(r.block_hash(5), Some(h(500)));
    assert_eq!(r.block_hash(4), Some(h(4)));
    assert_eq!(r.block_hash(3), None);
    assert_eq!(*r.execution_outcome(), 77);
    assert_eq!(r.canonical_fork().number, 4);
    let d = ExecutionData { execution_outcome: 1u8, parent_block_hashes: canon.clone(), canonical_fork: fork };
    assert_eq!(d.block_hash(4), Some(h(4)));
    assert_eq!(d.block_hash(6), None);
    assert_eq!(*d.execution_outcome(), 1);
    assert_eq!(d.canonical_fork().hash, h(4));
}
