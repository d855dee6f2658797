//! Tests for the credential accumulator: deterministic roots, insertion
//! order independence, range errors, overwrite semantics and the wire
//! format round trip.

use passport_creds::com_tree::ComTree;
use passport_creds::errors::AccumulatorError;
use passport_creds::params::merkle_crh_param;
use sha2::{Digest, Sha256};

fn sha(data: &[u8]) -> Vec<u8> {
    Sha256::digest(data).to_vec()
}

fn cred(tag: u8) -> Vec<u8> {
    sha(&[tag])
}

#[test]
fn empty_root_matches_manual_recomputation() {
    // Recompute the height-2 all-empty root by hand: a wrapper that handed
    // its input back unchanged, or a wrong node layout, would fail here.
    let params = merkle_crh_param();
    let tree = ComTree::empty(params.clone(), 2);
    let e0 = vec![0u8; 32];
    let e1 = sha(&[params.clone(), e0.clone(), e0.clone()].concat());
    let e2 = sha(&[params.clone(), e1.clone(), e1.clone()].concat());
    assert_eq!(tree.root(), e2);
}

#[test]
fn singleton_root_matches_manual_recomputation() {
    let params = merkle_crh_param();
    let mut tree = ComTree::empty(params.clone(), 2);
    let c = cred(1);
    tree.insert(2, &c).unwrap();
    let e0 = vec![0u8; 32];
    let e1 = sha(&[params.clone(), e0.clone(), e0.clone()].concat());
    let right = sha(&[params.clone(), c.clone(), e0.clone()].concat());
    let expected = sha(&[params.clone(), e1, right].concat());
    assert_eq!(tree.root(), expected);
}

#[test]
fn root_is_deterministic() {
    let params = merkle_crh_param();
    let mut tree = ComTree::empty(params, 4);
    tree.insert(0, &cred(1)).unwrap();
    tree.insert(5, &cred(2)).unwrap();
    assert_eq!(tree.root(), tree.root());
}

#[test]
fn root_independent_of_insertion_order() {
    let params = merkle_crh_param();
    let creds = [cred(10), cred(11), cred(12)];
    let orders: [[usize; 3]; 6] = [
        [0, 1, 2],
        [0, 2, 1],
        [1, 0, 2],
        [1, 2, 0],
        [2, 0, 1],
        [2, 1, 0],
    ];
    let mut roots = Vec::new();
    for order in orders.iter() {
        let mut tree = ComTree::empty(params.clone(), 5);
        for &slot in order.iter() {
            tree.insert(slot as u64, &creds[slot]).unwrap();
        }
        roots.push(tree.root());
    }
    for r in roots.iter() {
        assert_eq!(r, &roots[0]);
    }
}

#[test]
fn out_of_range_insert_fails_and_leaves_tree_unchanged() {
    let params = merkle_crh_param();
    let mut tree = ComTree::empty(params, 3);
    tree.insert(1, &cred(1)).unwrap();
    let before = tree.root();
    let r = tree.insert(8, &cred(2));
    assert_eq!(r, Err(AccumulatorError::IndexOutOfRange));
    assert_eq!(tree.root(), before);
}

#[test]
fn reinsert_overwrites_silently() {
    let params = merkle_crh_param();
    let mut twice = ComTree::empty(params.clone(), 3);
    twice.insert(4, &cred(1)).unwrap();
    twice.insert(4, &cred(2)).unwrap();
    let mut once = ComTree::empty(params, 3);
    once.insert(4, &cred(2)).unwrap();
    assert_eq!(twice.root(), once.root());
}

#[test]
fn wire_format_round_trip_preserves_root() {
    let params = merkle_crh_param();
    let mut tree = ComTree::empty(params.clone(), 4);
    tree.insert(0, &cred(1)).unwrap();
    tree.insert(7, &cred(2)).unwrap();
    tree.insert(15, &cred(3)).unwrap();
    let before = tree.root();
    let wire = tree.into_wire_format();
    assert_eq!(wire.height, 4);
    let rehydrated = wire.into_com_tree(params);
    assert_eq!(rehydrated.root(), before);
}

#[test]
fn boundary_index_is_accepted() {
    let params = merkle_crh_param();
    let mut tree = ComTree::empty(params, 3);
    assert!(tree.insert(7, &cred(1)).is_ok());
    assert_eq!(
        tree.insert(8, &cred(1)),
        Err(AccumulatorError::IndexOutOfRange)
    );
}
