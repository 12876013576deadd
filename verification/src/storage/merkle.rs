//! The Merkle tree of an append-only log: the hashes of one append.
//!
//! Leaves are hashed with the prefix byte 0, inner nodes with the prefix byte 1. A node
//! at level `l` and index `i` has the children `2i` and `2i + 1` at level `l - 1`; a
//! missing child counts as 32 zero bytes. Appending leaf number `c` recomputes the nodes
//! on its path, `(l, c >> l)` for each level `l`, up to the first index 0.
use vstd::prelude::*;
use sha2::Digest;
use crate::text::{decimal, decimal_string};

verus! {

/// The SHA-256 digest of `data`.
pub uninterp spec fn sha256(data: Seq<u8>) -> Seq<u8>;

/// sha2's `Sha256::digest` of `data`. What the digest is stays named (`sha256`); what
/// is stated is that it is 32 bytes long, as the output type of `Sha256` fixes.
#[verifier::external_body]
fn sha256_digest(data: &Vec<u8>) -> (r: Vec<u8>)
    ensures
        r@ == sha256(data@),
        r@.len() == 32,
{
    sha2::Sha256::digest(data.as_slice()).to_vec()
}

/// 32 zero bytes: the hash of a missing node.
pub open spec fn zero_hash() -> Seq<u8> {
    Seq::new(32, |i: int| 0u8)
}

/// The hash of the leaf `data`.
pub open spec fn leaf_hash(data: Seq<u8>) -> Seq<u8> {
    sha256(seq![0u8] + data)
}

/// The hash of the inner node with children `left` and `right`.
pub open spec fn node_hash(left: Seq<u8>, right: Seq<u8>) -> Seq<u8> {
    sha256(seq![1u8] + left + right)
}

/// `c` halved `k` times.
pub open spec fn shifted(c: nat, k: nat) -> nat
    decreases k,
{
    if k == 0 { c } else { shifted(c, (k - 1) as nat) / 2 }
}

/// How many times `c` can be halved before it reaches 0.
pub open spec fn levels(c: nat) -> nat
    decreases c,
{
    if c == 0 { 0 } else { 1 + levels(c / 2) }
}

/// The stored left sibling that was read for level `l`, or the zero hash.
pub open spec fn sibling_at(sibs: Seq<Option<Vec<u8>>>, l: nat) -> Seq<u8> {
    if l < sibs.len() && sibs[l as int] is Some { sibs[l as int]->0@ } else { zero_hash() }
}

/// The parent of the node at index `idx` with hash `h`: a right child (odd index) is
/// hashed after its left sibling `sib`, a left child before a zero right sibling.
pub open spec fn parent_hash(idx: nat, h: Seq<u8>, sib: Seq<u8>) -> Seq<u8> {
    if idx % 2 == 1 { node_hash(sib, h) } else { node_hash(h, zero_hash()) }
}

/// The hash at level `k` on the path of leaf number `c` with leaf hash `leaf`, given
/// the left siblings `sibs` read for each level.
pub open spec fn path_hash(c: nat, leaf: Seq<u8>, sibs: Seq<Option<Vec<u8>>>, k: nat) -> Seq<u8>
    decreases k,
{
    if k == 0 {
        leaf
    } else {
        let j = (k - 1) as nat;
        parent_hash(shifted(c, j), path_hash(c, leaf, sibs, j), sibling_at(sibs, j))
    }
}

/// The nodes that appending leaf number `c` stores, and the hash it ends with.
#[derive(Debug)]
pub struct MerkleUpdate {
    /// Level, index and hash of each node written, from the leaf upwards.
    pub nodes: Vec<(u32, u64, Vec<u8>)>,
    /// The hash of the last node written: the root of the tree so far.
    pub root: Vec<u8>,
}

/// `u` has the shape of the append of leaf number `c`: one node per level from the leaf
/// up to `levels(c)`, node `k` at level `k` and index `shifted(c, k)`, and the root is the
/// last node's hash.
pub open spec fn append_shape(u: MerkleUpdate, c: nat) -> bool {
    &&& u.nodes@.len() == levels(c) + 1
    &&& forall|k: int|
        0 <= k < u.nodes@.len() ==> (#[trigger] u.nodes@[k]).0 == k && u.nodes@[k].1 == shifted(c, k as nat)
    &&& u.root@ == u.nodes@[levels(c) as int].2@
}

/// The node store after `nodes` are written into `store` in order, keyed by level and index.
pub open spec fn store_nodes(
    store: Map<(nat, nat), Seq<u8>>,
    nodes: Seq<(u32, u64, Vec<u8>)>,
) -> Map<(nat, nat), Seq<u8>>
    decreases nodes.len(),
{
    if nodes.len() == 0 {
        store
    } else {
        store_nodes(store, nodes.drop_last()).insert((nodes.last().0 as nat, nodes.last().1 as nat), nodes.last().2@)
    }
}

/// The node store of a log after the appends `updates`, in order, from an empty store.
pub open spec fn log_store(updates: Seq<MerkleUpdate>) -> Map<(nat, nat), Seq<u8>>
    decreases updates.len(),
{
    if updates.len() == 0 {
        Map::empty()
    } else {
        store_nodes(log_store(updates.drop_last()), updates.last().nodes@)
    }
}

/// Every number below 2 to the power 64 is halved to 0 in at most 64 steps.
pub proof fn lemma_levels_bound(c: nat, n: nat, p: nat)
    requires
        c < p,
        p == vstd::arithmetic::power2::pow2(n),
    ensures
        levels(c) <= n,
    decreases n,
{
    if c > 0 {
        if n == 0 {
            vstd::arithmetic::power2::lemma2_to64();
        } else {
            vstd::arithmetic::power2::lemma_pow2_unfold(n);
            lemma_levels_bound(c / 2, (n - 1) as nat, vstd::arithmetic::power2::pow2((n - 1) as nat));
        }
    }
}

/// The positions a leaf path reads: for each level `l` whose index `c >> l` is odd, the
/// left sibling `(l, (c >> l) - 1)`; `None` for the other levels.
pub fn sibling_slots(count: u64) -> (r: Vec<Option<(u32, u64)>>)
    ensures
        r@.len() == levels(count as nat),
        forall|l: int|
            0 <= l < r@.len() ==> #[trigger] r@[l] == (if shifted(count as nat, l as nat) % 2 == 1 {
                Some((l as u32, (shifted(count as nat, l as nat) - 1) as u64))
            } else {
                None
            }),
{
    proof {
        vstd::arithmetic::power2::lemma2_to64();
        lemma_levels_bound(count as nat, 64, vstd::arithmetic::power2::pow2(64));
    }
    let mut out: Vec<Option<(u32, u64)>> = Vec::new();
    let mut idx = count;
    let mut level: u32 = 0;
    while idx > 0
        invariant
            idx == shifted(count as nat, level as nat),
            level + levels(idx as nat) == levels(count as nat),
            levels(count as nat) <= 64,
            out@.len() == level,
            forall|l: int|
                0 <= l < out@.len() ==> #[trigger] out@[l] == (if shifted(count as nat, l as nat) % 2 == 1 {
                    Some((l as u32, (shifted(count as nat, l as nat) - 1) as u64))
                } else {
                    None
                }),
        decreases idx,
    {
        if idx % 2 == 1 {
            out.push(Some((level, idx - 1)));
        } else {
            out.push(None);
        }
        idx = idx / 2;
        level = level + 1;
    }
    out
}

/// 32 zero bytes.
fn zeros() -> (r: Vec<u8>)
    ensures
        r@ == zero_hash(),
{
    let mut v: Vec<u8> = Vec::new();
    while v.len() < 32
        invariant
            v@.len() <= 32,
            forall|i: int| 0 <= i < v@.len() ==> v@[i] == 0u8,
        decreases 32 - v@.len(),
    {
        v.push(0u8);
    }
    assert(v@ =~= zero_hash());
    v
}

/// The hash of the leaf `data`.
pub fn hash_leaf(data: &[u8]) -> (r: Vec<u8>)
    ensures
        r@ == leaf_hash(data@),
        r@.len() == 32,
{
    let mut buf: Vec<u8> = Vec::new();
    buf.push(0u8);
    let n = data.len();
    let mut i: usize = 0;
    while i < n
        invariant
            n == data@.len(),
            i <= n,
            buf@ == seq![0u8] + data@.subrange(0, i as int),
        decreases n - i,
    {
        buf.push(data[i]);
        assert(data@.subrange(0, i + 1) =~= data@.subrange(0, i as int).push(data@[i as int]));
        assert(buf@ =~= seq![0u8] + data@.subrange(0, i + 1));
        i = i + 1;
    }
    assert(data@.subrange(0, n as int) =~= data@);
    sha256_digest(&buf)
}

/// The hash of the inner node with children `left` and `right`.
pub fn hash_node(left: &Vec<u8>, right: &Vec<u8>) -> (r: Vec<u8>)
    ensures
        r@ == node_hash(left@, right@),
        r@.len() == 32,
{
    let mut buf: Vec<u8> = Vec::new();
    buf.push(1u8);
    let mut i: usize = 0;
    while i < left.len()
        invariant
            i <= left@.len(),
            buf@ == seq![1u8] + left@.subrange(0, i as int),
        decreases left@.len() - i,
    {
        buf.push(left[i]);
        assert(left@.subrange(0, i + 1) =~= left@.subrange(0, i as int).push(left@[i as int]));
        assert(buf@ =~= seq![1u8] + left@.subrange(0, i + 1));
        i = i + 1;
    }
    assert(left@.subrange(0, left@.len() as int) =~= left@);
    let ghost mid = buf@;
    let mut j: usize = 0;
    while j < right.len()
        invariant
            j <= right@.len(),
            mid == seq![1u8] + left@,
            buf@ == mid + right@.subrange(0, j as int),
        decreases right@.len() - j,
    {
        buf.push(right[j]);
        assert(right@.subrange(0, j + 1) =~= right@.subrange(0, j as int).push(right@[j as int]));
        assert(buf@ =~= mid + right@.subrange(0, j + 1));
        j = j + 1;
    }
    assert(right@.subrange(0, right@.len() as int) =~= right@);
    assert(buf@ =~= seq![1u8] + left@ + right@);
    sha256_digest(&buf)
}

/// The nodes that appending `data` as leaf number `count` writes, from the leaf up to
/// the first node at index 0, and the hash of that last node. `sibs[l]` is what was read
/// at the position `sibling_slots(count)[l]` names (`None` where nothing is stored there,
/// or where nothing was to be read).
pub fn merkle_append(count: u64, data: &[u8], sibs: &Vec<Option<Vec<u8>>>) -> (r: MerkleUpdate)
    ensures
        r.nodes@.len() == levels(count as nat) + 1,
        forall|k: int|
            0 <= k < r.nodes@.len() ==> (#[trigger] r.nodes@[k]).0 == k && r.nodes@[k].1 == shifted(
                count as nat,
                k as nat,
            ) && r.nodes@[k].2@ == path_hash(count as nat, leaf_hash(data@), sibs@, k as nat),
        r.root@ == path_hash(count as nat, leaf_hash(data@), sibs@, levels(count as nat)),
        r.root@.len() == 32,
        forall|k: int| 0 <= k < r.nodes@.len() ==> (#[trigger] r.nodes@[k]).2@.len() == 32,
        append_shape(r, count as nat),
{
    proof {
        vstd::arithmetic::power2::lemma2_to64();
        lemma_levels_bound(count as nat, 64, vstd::arithmetic::power2::pow2(64));
    }
    let ghost leaf = leaf_hash(data@);
    let mut current = hash_leaf(data);
    let mut nodes: Vec<(u32, u64, Vec<u8>)> = Vec::new();
    nodes.push((0u32, count, current.clone()));
    let mut idx = count;
    let mut level: u32 = 0;
    while idx > 0
        invariant
            idx == shifted(count as nat, level as nat),
            level + levels(idx as nat) == levels(count as nat),
            levels(count as nat) <= 64,
            current@ == path_hash(count as nat, leaf, sibs@, level as nat),
            current@.len() == 32,
            nodes@.len() == level + 1,
            forall|k: int| 0 <= k < nodes@.len() ==> (#[trigger] nodes@[k]).2@.len() == 32,
            forall|k: int|
                0 <= k < nodes@.len() ==> (#[trigger] nodes@[k]).0 == k && nodes@[k].1 == shifted(
                    count as nat,
                    k as nat,
                ) && nodes@[k].2@ == path_hash(count as nat, leaf, sibs@, k as nat),
        decreases idx,
    {
        let next = if idx % 2 == 1 {
            let sib = if (level as usize) < sibs.len() {
                match &sibs[level as usize] {
                    Some(s) => s.clone(),
                    None => zeros(),
                }
            } else {
                zeros()
            };
            assert(sib@ == sibling_at(sibs@, level as nat));
            hash_node(&sib, &current)
        } else {
            let z = zeros();
            hash_node(&current, &z)
        };
        idx = idx / 2;
        level = level + 1;
        current = next;
        nodes.push((level, idx, current.clone()));
    }
    MerkleUpdate { nodes, root: current }
}

/// The root of a log of `count` leaves, given `column`: the hashes stored at index 0,
/// level by level from the leaves up to the first level where none is stored. It is the
/// highest of them, or 32 zero bytes for an empty log (or where none is stored).
pub fn merkle_root(count: u64, column: &Vec<Vec<u8>>) -> (r: Vec<u8>)
    ensures
        r@ == (if count == 0 || column@.len() == 0 { zero_hash() } else { column@.last()@ }),
{
    if count == 0 || column.len() == 0 {
        return zeros();
    }
    column[column.len() - 1].clone()
}

/// The storage key of the node at `level` and `index`: `level:index` in decimal.
pub fn node_key(level: u32, index: u64) -> (r: String)
    ensures
        r@ == decimal(level as nat) + ":"@ + decimal(index as nat),
{
    let mut s = decimal_string(level as u64);
    s.append(":");
    let t = decimal_string(index);
    s.append(t.as_str());
    s
}

/// Halving `c` once more after `k` halvings is halving `c / 2` `k` times.
proof fn lemma_shifted_step(c: nat, k: nat)
    ensures
        shifted(c, k + 1) == shifted(c / 2, k),
    decreases k,
{
    assert(shifted(c, k + 1) == shifted(c, k) / 2);
    if k > 0 {
        lemma_shifted_step(c, (k - 1) as nat);
        assert(shifted(c / 2, k) == shifted(c / 2, (k - 1) as nat) / 2);
    } else {
        assert(shifted(c, 0) == c);
        assert(shifted(c / 2, 0) == c / 2);
    }
}

/// The path of leaf number `c` ends at index 0, on level `levels(c)`; and later leaves
/// end no lower. So the highest stored node at index 0 is the last append's root.
pub proof fn lemma_path_top(c: nat, d: nat)
    requires
        c <= d,
    ensures
        shifted(c, levels(c)) == 0,
        levels(c) <= levels(d),
    decreases d,
{
    if c > 0 {
        lemma_path_top(c / 2, d / 2);
        lemma_shifted_step(c, levels(c / 2));
    }
}

proof fn lemma_shifted_add(c: nat, a: nat, b: nat)
    ensures
        shifted(shifted(c, a), b) == shifted(c, a + b),
    decreases b,
{
    if b > 0 {
        lemma_shifted_add(c, a, (b - 1) as nat);
        assert(shifted(c, a + b) == shifted(c, (a + b - 1) as nat) / 2);
    }
}

proof fn lemma_shifted_le(c: nat, j: nat)
    ensures
        shifted(c, j) <= c,
    decreases j,
{
    if j > 0 {
        lemma_shifted_le(c, (j - 1) as nat);
    }
}

proof fn lemma_levels_shifted(c: nat, j: nat)
    requires
        j <= levels(c),
    ensures
        levels(shifted(c, j)) == levels(c) - j,
    decreases j,
{
    if j > 0 {
        lemma_levels_shifted(c, (j - 1) as nat);
        let x = shifted(c, (j - 1) as nat);
        assert(x > 0);
        assert(levels(x) == 1 + levels(x / 2));
    }
}

proof fn lemma_store_nodes_keeps(store: Map<(nat, nat), Seq<u8>>, nodes: Seq<(u32, u64, Vec<u8>)>, key: (nat, nat))
    ensures
        store.contains_key(key) ==> store_nodes(store, nodes).contains_key(key),
        forall|m: int| 0 <= m < nodes.len() && (nodes[m].0 as nat, nodes[m].1 as nat) == key
            ==> store_nodes(store, nodes).contains_key(key),
        store_nodes(store, nodes).contains_key(key) ==> store.contains_key(key) || exists|m: int|
            0 <= m < nodes.len() && (nodes[m].0 as nat, nodes[m].1 as nat) == key,
    decreases nodes.len(),
{
    if nodes.len() > 0 {
        let prev = nodes.drop_last();
        lemma_store_nodes_keeps(store, prev, key);
        assert forall|m: int| 0 <= m < nodes.len() && (nodes[m].0 as nat, nodes[m].1 as nat) == key
            implies store_nodes(store, nodes).contains_key(key) by {
            if m < prev.len() {
                assert(prev[m] == nodes[m]);
            }
        }
        if store_nodes(store, nodes).contains_key(key) && !store.contains_key(key) {
            if key == (nodes.last().0 as nat, nodes.last().1 as nat) {
                assert(nodes[nodes.len() - 1] == nodes.last());
            } else {
                let m = choose|m: int| 0 <= m < prev.len() && (prev[m].0 as nat, prev[m].1 as nat) == key;
                assert(prev[m] == nodes[m]);
            }
        }
    }
}

proof fn lemma_log_keys(updates: Seq<MerkleUpdate>, k: nat, j: nat)
    requires
        forall|i: int| 0 <= i < updates.len() ==> append_shape(#[trigger] updates[i], i as nat),
    ensures
        (exists|i: int| 0 <= i < updates.len() && k <= #[trigger] levels(i as nat) && j == shifted(i as nat, k))
            ==> log_store(updates).contains_key((k, j)),
        log_store(updates).contains_key((k, j)) ==> exists|i: int| 0 <= i < updates.len() && k <= #[trigger] levels(i as nat),
    decreases updates.len(),
{
    if updates.len() > 0 {
        let n = updates.len() as int;
        let prev = updates.drop_last();
        let last = updates.last();
        assert forall|i: int| 0 <= i < prev.len() implies append_shape(#[trigger] prev[i], i as nat) by {
            assert(prev[i] == updates[i]);
        }
        lemma_log_keys(prev, k, j);
        lemma_store_nodes_keeps(log_store(prev), last.nodes@, (k, j));
        assert(append_shape(updates[n - 1], (n - 1) as nat));
        assert(updates[n - 1] == last);
        if exists|i: int| 0 <= i < updates.len() && k <= #[trigger] levels(i as nat) && j == shifted(i as nat, k) {
            let i = choose|i: int| 0 <= i < updates.len() && k <= #[trigger] levels(i as nat) && j == shifted(i as nat, k);
            if i == n - 1 {
                assert(last.nodes@[k as int].0 == k && last.nodes@[k as int].1 == shifted((n - 1) as nat, k));
            } else {
                assert(0 <= i < prev.len() && k <= levels(i as nat) && j == shifted(i as nat, k));
            }
        }
        if log_store(updates).contains_key((k, j)) {
            if !log_store(prev).contains_key((k, j)) {
                let m = choose|m: int|
                    0 <= m < last.nodes@.len() && (last.nodes@[m].0 as nat, last.nodes@[m].1 as nat) == (k, j);
                assert(last.nodes@[m].0 == m);
                assert(k <= levels((n - 1) as nat));
            } else {
                let i = choose|i: int| 0 <= i < prev.len() && k <= #[trigger] levels(i as nat);
                assert(0 <= i < updates.len() && k <= levels(i as nat));
            }
        }
    }
}

/// What the root read back from a log's store is: after appends of leaves `0..n` that
/// each wrote their nodes as `merkle_append` gives them, the nodes at index 0 are stored
/// on every level up to `levels(n - 1)` and on none above, and the highest of them holds
/// the root that the last append returned. Reading index 0 level by level until a level
/// has none, as `merkle_root` takes it, thus finds the last append's root.
pub proof fn lemma_log_root(updates: Seq<MerkleUpdate>)
    requires
        forall|i: int| 0 <= i < updates.len() ==> append_shape(#[trigger] updates[i], i as nat),
    ensures
        updates.len() == 0 ==> log_store(updates) == Map::<(nat, nat), Seq<u8>>::empty(),
        updates.len() > 0 ==> ({
            let s = log_store(updates);
            let top = levels((updates.len() - 1) as nat);
            &&& forall|k: nat| k <= top ==> #[trigger] s.contains_key((k, 0nat))
            &&& !s.contains_key((top + 1, 0nat))
            &&& s[(top, 0nat)] == updates.last().root@
        }),
{
    if updates.len() > 0 {
        let n = updates.len() as int;
        let c = (n - 1) as nat;
        let top = levels(c);
        let last = updates.last();
        assert(updates[n - 1] == last);
        assert(append_shape(last, c));
        lemma_path_top(c, c);
        assert forall|k: nat| k <= top implies #[trigger] log_store(updates).contains_key((k, 0nat)) by {
            let i = shifted(c, (top - k) as nat);
            lemma_levels_shifted(c, (top - k) as nat);
            lemma_shifted_add(c, (top - k) as nat, k);
            lemma_shifted_le(c, (top - k) as nat);
            assert((top - k) as nat + k == top);
            let ii: int = i as int;
            assert(0 <= ii < updates.len() && k <= levels(ii as nat) && 0 == shifted(ii as nat, k));
            lemma_log_keys(updates, k, 0);
        }
        lemma_log_keys(updates, top + 1, 0);
        if log_store(updates).contains_key((top + 1, 0nat)) {
            let i = choose|i: int| 0 <= i < updates.len() && top + 1 <= #[trigger] levels(i as nat);
            lemma_path_top(i as nat, c);
        }
        let nodes = last.nodes@;
        assert(nodes.last() == nodes[top as int]);
        assert(log_store(updates) == store_nodes(log_store(updates.drop_last()), nodes));
    }
}

} // verus!
