//! The credential accumulator: a fixed-height sparse Merkle tree over
//! issued credential commitments. Leaves are index-addressed; absent leaves
//! hold the empty-leaf sentinel; every internal node is the domain-separated
//! hash of its two children under fixed public parameters. The root is a
//! pure function of the leaf contents and the parameters.

use vstd::prelude::*;
use vstd::arithmetic::power2::{
    lemma2_to64, lemma2_to64_rest, lemma_pow2_strictly_increases, lemma_pow2_unfold, pow2,
};
use vstd::pervasive::unreached;
use vstd::pervasive::VecAdditionalExecFns;
use crate::bytes::{append_bytes, clone_bytes, spec_zero_bytes, zero_bytes};
use crate::digest::{sha256, sha256_of};
use crate::errors::AccumulatorError;
use crate::params::HASH_LEN;

verus! {

/// The contents of a tree: the partial map from leaf index to leaf value
/// that a sequence of (index, value) pairs denotes. A later pair overrides
/// an earlier one with the same index.
pub open spec fn leaf_map(s: Seq<(u64, Vec<u8>)>) -> Map<u64, Seq<u8>>
    decreases s.len(),
{
    if s.len() == 0 {
        Map::empty()
    } else {
        leaf_map(s.drop_last()).insert(s.last().0, s.last().1@)
    }
}

/// The domain-separated two-child node hash: the digest of the public
/// parameters followed by the two children.
pub open spec fn spec_node_hash(params: Seq<u8>, left: Seq<u8>, right: Seq<u8>) -> Seq<u8> {
    sha256_of(params + left + right)
}

/// The empty-leaf sentinel.
pub open spec fn spec_empty_leaf() -> Seq<u8> {
    spec_zero_bytes(32)
}

/// The root of an all-empty subtree of the given height.
pub open spec fn spec_empty_subtree_hash(params: Seq<u8>, level: nat) -> Seq<u8>
    decreases level,
{
    if level == 0 {
        spec_empty_leaf()
    } else {
        spec_node_hash(
            params,
            spec_empty_subtree_hash(params, (level - 1) as nat),
            spec_empty_subtree_hash(params, (level - 1) as nat),
        )
    }
}

/// The root of the subtree of height `level` whose leaves are the indices
/// `lo .. lo + 2^level`.
pub open spec fn spec_subtree_hash(m: Map<u64, Seq<u8>>, params: Seq<u8>, level: nat, lo: nat) -> Seq<
    u8,
>
    decreases level,
{
    if level == 0 {
        if lo <= u64::MAX && m.contains_key(lo as u64) {
            m[lo as u64]
        } else {
            spec_empty_leaf()
        }
    } else {
        spec_node_hash(
            params,
            spec_subtree_hash(m, params, (level - 1) as nat, lo),
            spec_subtree_hash(m, params, (level - 1) as nat, lo + pow2((level - 1) as nat)),
        )
    }
}

/// The root of a whole tree of the given height over the given contents.
pub open spec fn spec_root(m: Map<u64, Seq<u8>>, params: Seq<u8>, height: nat) -> Seq<u8> {
    spec_subtree_hash(m, params, height, 0)
}

/// A key is in the contents exactly when some pair carries it.
proof fn lemma_leaf_map_contains(s: Seq<(u64, Vec<u8>)>, k: u64)
    ensures
        leaf_map(s).contains_key(k) <==> exists|i: int| 0 <= i < s.len() && s[i].0 == k,
    decreases s.len(),
{
    if s.len() == 0 {
    } else {
        lemma_leaf_map_contains(s.drop_last(), k);
        if s.last().0 == k {
            assert(s[s.len() - 1].0 == k);
        } else {
            if exists|i: int| 0 <= i < s.len() && s[i].0 == k {
                let i = choose|i: int| 0 <= i < s.len() && s[i].0 == k;
                assert(s.drop_last()[i].0 == k);
            }
            if leaf_map(s).contains_key(k) {
                let i = choose|i: int|
                    0 <= i < s.drop_last().len() && s.drop_last()[i].0 == k;
                assert(s[i].0 == k);
            }
        }
    }
}

/// With pairwise distinct indices, the pair at position `i` gives the
/// contents at its index.
proof fn lemma_leaf_map_value(s: Seq<(u64, Vec<u8>)>, i: int)
    requires
        0 <= i < s.len(),
        forall|a: int, b: int| 0 <= a < b < s.len() ==> s[a].0 != s[b].0,
    ensures
        leaf_map(s).contains_key(s[i].0),
        leaf_map(s)[s[i].0] == s[i].1@,
    decreases s.len(),
{
    if i == s.len() - 1 {
    } else {
        assert(forall|a: int, b: int|
            0 <= a < b < s.drop_last().len() ==> s.drop_last()[a].0 != s.drop_last()[b].0);
        lemma_leaf_map_value(s.drop_last(), i);
        assert(s.last().0 != s[i].0);
        assert(s.drop_last()[i] == s[i]);
    }
}

/// Appending a pair inserts it into the contents.
proof fn lemma_leaf_map_push(s: Seq<(u64, Vec<u8>)>, p: (u64, Vec<u8>))
    ensures
        leaf_map(s.push(p)) == leaf_map(s).insert(p.0, p.1@),
{
    assert(s.push(p).drop_last() =~= s);
    assert(s.push(p).last() == p);
}

/// With pairwise distinct indices, replacing the pair that carries `idx`
/// overwrites the contents at `idx`.
proof fn lemma_leaf_map_update(s: Seq<(u64, Vec<u8>)>, k: int, idx: u64, v: Vec<u8>)
    requires
        0 <= k < s.len(),
        s[k].0 == idx,
        forall|a: int, b: int| 0 <= a < b < s.len() ==> s[a].0 != s[b].0,
    ensures
        leaf_map(s.update(k, (idx, v))) == leaf_map(s).insert(idx, v@),
    decreases s.len(),
{
    let t = s.update(k, (idx, v));
    if k == s.len() - 1 {
        assert(t.drop_last() =~= s.drop_last());
        assert(t.last() == (idx, v));
        assert(leaf_map(s.drop_last()).insert(s.last().0, s.last().1@).insert(idx, v@)
            =~= leaf_map(s.drop_last()).insert(idx, v@));
    } else {
        assert(t.drop_last() =~= s.drop_last().update(k, (idx, v)));
        assert(t.last() == s.last());
        assert(forall|a: int, b: int|
            0 <= a < b < s.drop_last().len() ==> s.drop_last()[a].0 != s.drop_last()[b].0);
        assert(s.drop_last()[k] == s[k]);
        lemma_leaf_map_update(s.drop_last(), k, idx, v);
        assert(s.last().0 != idx);
        assert(leaf_map(s.drop_last()).insert(idx, v@).insert(s.last().0, s.last().1@)
            =~= leaf_map(s.drop_last()).insert(s.last().0, s.last().1@).insert(idx, v@));
    }
}

/// A range that no pair's index falls in holds no contents.
proof fn lemma_no_pairs_no_keys(s: Seq<(u64, Vec<u8>)>, lo: int, hi: int)
    requires
        forall|i: int| 0 <= i < s.len() ==> !(lo <= (#[trigger] s[i]).0 < hi),
    ensures
        forall|k: u64| lo <= k < hi ==> !leaf_map(s).contains_key(k),
{
    assert forall|k: u64| lo <= k < hi implies !leaf_map(s).contains_key(k) by {
        lemma_leaf_map_contains(s, k);
    }
}

/// A subtree over a range without contents hashes to the all-empty root.
proof fn lemma_empty_subtree(m: Map<u64, Seq<u8>>, params: Seq<u8>, level: nat, lo: nat)
    requires
        forall|k: u64| lo <= k < lo + pow2(level) ==> !m.contains_key(k),
    ensures
        spec_subtree_hash(m, params, level, lo) == spec_empty_subtree_hash(params, level),
    decreases level,
{
    if level == 0 {
        lemma2_to64();
        if lo <= u64::MAX {
            assert(!m.contains_key(lo as u64));
        }
    } else {
        lemma_pow2_unfold(level);
        lemma_empty_subtree(m, params, (level - 1) as nat, lo);
        lemma_empty_subtree(m, params, (level - 1) as nat, lo + pow2((level - 1) as nat));
    }
}

/// Insertion order is irrelevant: inserting two credentials at distinct
/// indices yields the same contents, hence the same root, in either order.
pub proof fn lemma_insert_order_independent(
    m: Map<u64, Seq<u8>>,
    i: u64,
    v: Seq<u8>,
    j: u64,
    w: Seq<u8>,
    params: Seq<u8>,
    height: nat,
)
    requires
        i != j,
    ensures
        m.insert(i, v).insert(j, w) == m.insert(j, w).insert(i, v),
        spec_root(m.insert(i, v).insert(j, w), params, height) == spec_root(
            m.insert(j, w).insert(i, v),
            params,
            height,
        ),
{
    assert(m.insert(i, v).insert(j, w) =~= m.insert(j, w).insert(i, v));
}

/// The root is a pure function of the leaf contents: two trees whose pair
/// sequences denote the same contents have the same root, whatever order
/// the pairs are stored in.
pub proof fn lemma_root_determined_by_contents(
    l1: Seq<(u64, Vec<u8>)>,
    l2: Seq<(u64, Vec<u8>)>,
    params: Seq<u8>,
    height: nat,
)
    requires
        leaf_map(l1) == leaf_map(l2),
    ensures
        spec_root(leaf_map(l1), params, height) == spec_root(leaf_map(l2), params, height),
{
}

/// Identical leaf sets produce identical roots regardless of insertion
/// order: two trees that store the same (index, credential) pairs — in any
/// order, with pairwise distinct indices — hold the same contents and so
/// the same root.
pub proof fn lemma_same_leaf_set_same_root(
    l1: Seq<(u64, Vec<u8>)>,
    l2: Seq<(u64, Vec<u8>)>,
    params: Seq<u8>,
    height: nat,
)
    requires
        forall|a: int, b: int| 0 <= a < b < l1.len() ==> (#[trigger] l1[a]).0 != (#[trigger] l1[b]).0,
        forall|a: int, b: int| 0 <= a < b < l2.len() ==> (#[trigger] l2[a]).0 != (#[trigger] l2[b]).0,
        forall|i: int|
            0 <= i < l1.len() ==> exists|j: int|
                0 <= j < l2.len() && (#[trigger] l2[j]).0 == (#[trigger] l1[i]).0 && l2[j].1@
                    == l1[i].1@,
        forall|j: int|
            0 <= j < l2.len() ==> exists|i: int|
                0 <= i < l1.len() && (#[trigger] l1[i]).0 == (#[trigger] l2[j]).0 && l1[i].1@
                    == l2[j].1@,
    ensures
        leaf_map(l1) == leaf_map(l2),
        spec_root(leaf_map(l1), params, height) == spec_root(leaf_map(l2), params, height),
{
    assert forall|k: u64| #[trigger]
        leaf_map(l1).contains_key(k) implies leaf_map(l2).contains_key(k) && leaf_map(l2)[k]
        == leaf_map(l1)[k] by {
        lemma_leaf_map_contains(l1, k);
        let i = choose|i: int| 0 <= i < l1.len() && l1[i].0 == k;
        lemma_leaf_map_value(l1, i);
        let j = choose|j: int|
            0 <= j < l2.len() && (#[trigger] l2[j]).0 == l1[i].0 && l2[j].1@ == l1[i].1@;
        lemma_leaf_map_value(l2, j);
    }
    assert forall|k: u64| #[trigger]
        leaf_map(l2).contains_key(k) implies leaf_map(l1).contains_key(k) by {
        lemma_leaf_map_contains(l2, k);
        let j = choose|j: int| 0 <= j < l2.len() && l2[j].0 == k;
        lemma_leaf_map_value(l2, j);
        let i = choose|i: int|
            0 <= i < l1.len() && (#[trigger] l1[i]).0 == l2[j].0 && l1[i].1@ == l2[j].1@;
        lemma_leaf_map_value(l1, i);
    }
    assert(leaf_map(l1) =~= leaf_map(l2));
}

/// The root of an empty tree is the all-empty subtree hash of its height,
/// whatever that height is.
pub proof fn lemma_empty_root(params: Seq<u8>, height: nat)
    ensures
        spec_root(Map::<u64, Seq<u8>>::empty(), params, height) == spec_empty_subtree_hash(
            params,
            height,
        ),
{
    lemma_empty_subtree(Map::<u64, Seq<u8>>::empty(), params, height, 0);
}

/// Stripping a tree to its wire format and rehydrating it with the same
/// parameters reproduces the original root exactly.
pub proof fn lemma_rehydration_preserves_root(
    t: ComTree,
    w: ComTreeWireFormat,
    r: ComTree,
)
    requires
        w.height == t.height,
        w.leaves@ == t.leaves@,
        r.params@ == t.params@,
        r.height == w.height,
        r.leaves@ == w.leaves@,
    ensures
        spec_root(leaf_map(r.leaves@), r.params@, r.height as nat) == spec_root(
            leaf_map(t.leaves@),
            t.params@,
            t.height as nat,
        ),
{
}

/// 2^e as a machine word.
fn pow2_u64(e: u32) -> (r: u64)
    requires
        e <= 63,
    ensures
        r == pow2(e as nat),
{
    proof {
        lemma2_to64();
        lemma2_to64_rest();
    }
    let mut r: u64 = 1;
    let mut i: u32 = 0;
    while i < e
        invariant
            i <= e <= 63,
            r == pow2(i as nat),
        decreases e - i,
    {
        proof {
            lemma_pow2_unfold(i as nat + 1);
            if i as nat + 1 < 63 {
                lemma_pow2_strictly_increases(i as nat + 1, 63);
            }
            lemma2_to64_rest();
        }
        r = r * 2;
        i = i + 1;
    }
    r
}

/// The two-child node hash, as the digest of the concatenated parameters
/// and children.
fn hash_children(params: &Vec<u8>, left: &Vec<u8>, right: &Vec<u8>) -> (r: Vec<u8>)
    ensures
        r@ == spec_node_hash(params@, left@, right@),
        r@.len() == 32,
{
    let mut buf = clone_bytes(params);
    append_bytes(&mut buf, left);
    append_bytes(&mut buf, right);
    proof {
        assert(buf@ =~= params@ + left@ + right@);
    }
    sha256(&buf)
}

/// The all-empty subtree roots for every level up to `height`, cached once
/// per root computation.
fn empty_hashes(params: &Vec<u8>, height: u32) -> (r: Vec<Vec<u8>>)
    requires
        height <= 63,
    ensures
        r@.len() == height + 1,
        forall|i: int|
            0 <= i < r@.len() ==> (#[trigger] r@[i])@ == spec_empty_subtree_hash(
                params@,
                i as nat,
            ),
        forall|i: int| 0 <= i < r@.len() ==> (#[trigger] r@[i])@.len() == 32,
{
    let mut r: Vec<Vec<u8>> = Vec::new();
    r.push(zero_bytes(32));
    let mut i: usize = 1;
    while i <= height as usize
        invariant
            height <= 63,
            1 <= i <= height + 1,
            r@.len() == i,
            forall|j: int|
                0 <= j < i ==> (#[trigger] r@[j])@ == spec_empty_subtree_hash(params@, j as nat),
            forall|j: int| 0 <= j < i ==> (#[trigger] r@[j])@.len() == 32,
        decreases height + 1 - i,
    {
        let h = hash_children(params, &r[i - 1], &r[i - 1]);
        r.push(h);
        i = i + 1;
    }
    r
}

/// True iff some pair's index lies in `lo .. lo + width`.
fn any_in_range(leaves: &Vec<(u64, Vec<u8>)>, lo: u64, width: u64) -> (r: bool)
    requires
        lo + width <= u64::MAX,
    ensures
        r <==> exists|i: int| 0 <= i < leaves@.len() && lo <= (#[trigger] leaves@[i]).0 < lo
            + width,
{
    let hi = lo + width;
    let mut i: usize = 0;
    while i < leaves.len()
        invariant
            i <= leaves@.len(),
            hi == lo + width,
            forall|j: int| 0 <= j < i ==> !(lo <= (#[trigger] leaves@[j]).0 < hi),
        decreases leaves@.len() - i,
    {
        let pair = &leaves[i];
        if lo <= pair.0 && pair.0 < hi {
            return true;
        }
        i = i + 1;
    }
    false
}

/// The stored leaf value at `idx`, if any.
fn leaf_value_at(leaves: &Vec<(u64, Vec<u8>)>, idx: u64) -> (r: Option<Vec<u8>>)
    requires
        forall|a: int, b: int|
            0 <= a < b < leaves@.len() ==> (#[trigger] leaves@[a]).0 != (#[trigger] leaves@[b]).0,
        forall|i: int| 0 <= i < leaves@.len() ==> (#[trigger] leaves@[i]).1@.len() == HASH_LEN,
    ensures
        r matches Some(v) ==> leaf_map(leaves@).contains_key(idx) && v@ == leaf_map(leaves@)[idx]
            && v@.len() == HASH_LEN,
        r is None ==> !leaf_map(leaves@).contains_key(idx),
{
    let mut i: usize = 0;
    while i < leaves.len()
        invariant
            i <= leaves@.len(),
            forall|j: int| 0 <= j < i ==> (#[trigger] leaves@[j]).0 != idx,
            forall|a: int, b: int|
                0 <= a < b < leaves@.len() ==> (#[trigger] leaves@[a]).0 != (
                #[trigger] leaves@[b]).0,
            forall|j: int| 0 <= j < leaves@.len() ==> (#[trigger] leaves@[j]).1@.len() == HASH_LEN,
        decreases leaves@.len() - i,
    {
        let pair = &leaves[i];
        if pair.0 == idx {
            proof {
                lemma_leaf_map_value(leaves@, i as int);
            }
            return Some(clone_bytes(&pair.1));
        }
        i = i + 1;
    }
    proof {
        lemma_leaf_map_contains(leaves@, idx);
    }
    None
}

/// The root of the subtree of height `level` over leaves `lo .. lo + width`,
/// pruning subtrees without contents to the cached all-empty roots.
fn subtree_root(
    leaves: &Vec<(u64, Vec<u8>)>,
    params: &Vec<u8>,
    empties: &Vec<Vec<u8>>,
    level: u32,
    lo: u64,
    width: u64,
) -> (r: Vec<u8>)
    requires
        level <= 63,
        width == pow2(level as nat),
        lo + width <= pow2(63),
        level < empties@.len(),
        forall|i: int|
            0 <= i < empties@.len() ==> (#[trigger] empties@[i])@ == spec_empty_subtree_hash(
                params@,
                i as nat,
            ),
        forall|i: int| 0 <= i < empties@.len() ==> (#[trigger] empties@[i])@.len() == 32,
        forall|i: int| 0 <= i < leaves@.len() ==> (#[trigger] leaves@[i]).1@.len() == HASH_LEN,
        forall|a: int, b: int|
            0 <= a < b < leaves@.len() ==> (#[trigger] leaves@[a]).0 != (#[trigger] leaves@[b]).0,
    ensures
        r@ == spec_subtree_hash(leaf_map(leaves@), params@, level as nat, lo as nat),
        r@.len() == 32,
    decreases level,
{
    proof {
        lemma2_to64();
        lemma2_to64_rest();
    }
    if !any_in_range(leaves, lo, width) {
        proof {
            lemma_no_pairs_no_keys(leaves@, lo as int, lo + width);
            lemma_empty_subtree(leaf_map(leaves@), params@, level as nat, lo as nat);
        }
        clone_bytes(&empties[level as usize])
    } else if level == 0 {
        match leaf_value_at(leaves, lo) {
            Some(v) => v,
            None => {
                proof {
                    lemma_leaf_map_contains(leaves@, lo);
                }
                unreached()
            },
        }
    } else {
        proof {
            lemma_pow2_unfold(level as nat);
        }
        let half = width / 2;
        let left = subtree_root(leaves, params, empties, level - 1, lo, half);
        let right = subtree_root(leaves, params, empties, level - 1, lo + half, half);
        hash_children(params, &left, &right)
    }
}

/// The credential accumulator itself: fixed public hash parameters, a fixed
/// height, and the index-addressed leaves.
pub struct ComTree {
    pub params: Vec<u8>,
    pub height: u32,
    pub leaves: Vec<(u64, Vec<u8>)>,
}

/// The accumulator's wire format: the tree contents without the hash
/// parameters, for compact storage and transmission. Rehydration must
/// supply the canonical public parameters out-of-band.
pub struct ComTreeWireFormat {
    pub height: u32,
    pub leaves: Vec<(u64, Vec<u8>)>,
}

impl ComTree {
    /// Well-formedness: the height admits machine-word leaf indexing, every
    /// stored index fits under the height, the indices are pairwise
    /// distinct, and every stored leaf is a digest-sized credential.
    pub open spec fn wf(&self) -> bool {
        &&& self.height <= 63
        &&& forall|i: int|
            0 <= i < self.leaves@.len() ==> (#[trigger] self.leaves@[i]).0 < pow2(
                self.height as nat,
            )
        &&& forall|a: int, b: int|
            0 <= a < b < self.leaves@.len() ==> (#[trigger] self.leaves@[a]).0 != (
            #[trigger] self.leaves@[b]).0
        &&& forall|i: int|
            0 <= i < self.leaves@.len() ==> (#[trigger] self.leaves@[i]).1@.len() == HASH_LEN
    }

    /// The tree's contents as a partial map from leaf index to credential.
    pub open spec fn contents(&self) -> Map<u64, Seq<u8>> {
        leaf_map(self.leaves@)
    }

    /// An empty tree of the given fixed height under the given parameters.
    /// The height never changes afterwards.
    pub fn empty(params: Vec<u8>, height: u32) -> (r: ComTree)
        requires
            height <= 63,
        ensures
            r.wf(),
            r.params@ == params@,
            r.height == height,
            r.contents() == Map::<u64, Seq<u8>>::empty(),
    {
        ComTree { params, height, leaves: Vec::new() }
    }

    /// Overwrites the leaf at `leaf_index` with the credential. An index
    /// beyond `2^height - 1` is rejected and the tree is left unchanged;
    /// re-inserting at an occupied index silently overwrites (callers that
    /// need append-only semantics track occupancy themselves).
    pub fn insert(&mut self, leaf_index: u64, cred: &Vec<u8>) -> (r: Result<(), AccumulatorError>)
        requires
            old(self).wf(),
            cred@.len() == HASH_LEN,
        ensures
            final(self).wf(),
            final(self).params@ == old(self).params@,
            final(self).height == old(self).height,
            r is Ok <==> leaf_index < pow2(old(self).height as nat),
            r is Ok ==> final(self).contents() == old(self).contents().insert(
                leaf_index,
                cred@,
            ),
            r is Err ==> r == Err::<(), AccumulatorError>(AccumulatorError::IndexOutOfRange)
                && final(self).leaves@ == old(self).leaves@,
    {
        let bound = pow2_u64(self.height);
        if leaf_index >= bound {
            return Err(AccumulatorError::IndexOutOfRange);
        }
        let mut i: usize = 0;
        while i < self.leaves.len()
            invariant
                i <= self.leaves@.len(),
                *self == *old(self),
                old(self).wf(),
                cred@.len() == HASH_LEN,
                leaf_index < pow2(old(self).height as nat),
                forall|j: int| 0 <= j < i ==> (#[trigger] self.leaves@[j]).0 != leaf_index,
            decreases self.leaves@.len() - i,
        {
            if self.leaves[i].0 == leaf_index {
                self.leaves.set(i, (leaf_index, clone_bytes(cred)));
                proof {
                    lemma_leaf_map_update(
                        old(self).leaves@,
                        i as int,
                        leaf_index,
                        self.leaves@[i as int].1,
                    );
                    assert(forall|j: int|
                        0 <= j < self.leaves@.len() ==> (#[trigger] self.leaves@[j]).0 == old(
                            self,
                        ).leaves@[j].0);
                }
                return Ok(());
            }
            i = i + 1;
        }
        self.leaves.push((leaf_index, clone_bytes(cred)));
        proof {
            lemma_leaf_map_push(
                old(self).leaves@,
                self.leaves@[self.leaves@.len() - 1],
            );
        }
        Ok(())
    }

    /// The tree's root: a pure, side-effect-free function of the current
    /// leaf contents and the hash parameters.
    pub fn root(&self) -> (r: Vec<u8>)
        requires
            self.wf(),
        ensures
            r@ == spec_root(self.contents(), self.params@, self.height as nat),
            r@.len() == 32,
    {
        proof {
            if (self.height as nat) < 63 {
                lemma_pow2_strictly_increases(self.height as nat, 63);
            }
        }
        let empties = empty_hashes(&self.params, self.height);
        let width = pow2_u64(self.height);
        subtree_root(&self.leaves, &self.params, &empties, self.height, 0, width)
    }

    /// Strips the hash parameters off for compact storage or transmission.
    /// The leaf contents and the height are kept losslessly.
    pub fn into_wire_format(self) -> (w: ComTreeWireFormat)
        ensures
            w.height == self.height,
            w.leaves@ == self.leaves@,
            self.wf() ==> w.wf(),
    {
        ComTreeWireFormat { height: self.height, leaves: self.leaves }
    }
}

impl ComTreeWireFormat {
    /// Well-formedness: exactly the tree invariant, minus the parameters.
    pub open spec fn wf(&self) -> bool {
        &&& self.height <= 63
        &&& forall|i: int|
            0 <= i < self.leaves@.len() ==> (#[trigger] self.leaves@[i]).0 < pow2(
                self.height as nat,
            )
        &&& forall|a: int, b: int|
            0 <= a < b < self.leaves@.len() ==> (#[trigger] self.leaves@[a]).0 != (
            #[trigger] self.leaves@[b]).0
        &&& forall|i: int|
            0 <= i < self.leaves@.len() ==> (#[trigger] self.leaves@[i]).1@.len() == HASH_LEN
    }

    /// Rehydrates the wire format into a full tree under the supplied
    /// (canonical, out-of-band) hash parameters.
    pub fn into_com_tree(self, params: Vec<u8>) -> (t: ComTree)
        ensures
            t.params@ == params@,
            t.height == self.height,
            t.leaves@ == self.leaves@,
            self.wf() ==> t.wf(),
    {
        ComTree { params, height: self.height, leaves: self.leaves }
    }
}

} // verus!
