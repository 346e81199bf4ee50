//! A binary Merkle tree over an ordered list of items, stored level by level.
//!
//! The leaves stand in insertion order. Each further level pairs the nodes
//! of the level below from the left; where a level has an odd number of
//! nodes, the last one is paired with itself. The same convention governs
//! the sibling path of a leaf.
use vstd::prelude::*;
use crate::hash::{hash_intermediate, hash_leaf, hash_sorted_pair, leaf_node, node_hash, ordered_node};

verus! {

/// The byte strings behind a sequence of digests.
pub open spec fn digests(s: Seq<[u8; 32]>) -> Seq<Seq<u8>> {
    Seq::new(s.len(), |i: int| s[i]@)
}

/// The byte strings behind a sequence of byte vectors.
pub open spec fn items_view(items: Seq<Vec<u8>>) -> Seq<Seq<u8>> {
    Seq::new(items.len(), |i: int| items[i]@)
}

/// The bottom level of the tree over `items`: one leaf commitment each.
pub open spec fn leaf_level(items: Seq<Seq<u8>>) -> Seq<Seq<u8>> {
    Seq::new(items.len(), |i: int| leaf_node(items[i]))
}

/// Number of nodes above a level of `level_len` nodes; a level of one node
/// is the root and has nothing above it.
pub open spec fn next_level_len(level_len: nat) -> nat {
    if level_len <= 1 {
        0
    } else {
        (level_len + 1) / 2
    }
}

/// The parent of two children, by sorted-pair or by positional hashing.
pub open spec fn combine(left: Seq<u8>, right: Seq<u8>, sorted: bool) -> Seq<u8> {
    if sorted {
        node_hash(left, right)
    } else {
        ordered_node(left, right)
    }
}

/// The right child of parent `i`: the node after the left child, or the
/// left child again where the level ends with it.
pub open spec fn right_child(level: Seq<Seq<u8>>, i: int) -> Seq<u8> {
    if 2 * i + 1 < level.len() {
        level[2 * i + 1]
    } else {
        level[2 * i]
    }
}

/// The level above `level`.
pub open spec fn next_level(level: Seq<Seq<u8>>, sorted: bool) -> Seq<Seq<u8>> {
    Seq::new(
        next_level_len(level.len()),
        |i: int| combine(level[2 * i], right_child(level, i), sorted),
    )
}

/// All nodes of the tree whose bottom level is `level`, level after level.
pub open spec fn tree_nodes(level: Seq<Seq<u8>>, sorted: bool) -> Seq<Seq<u8>>
    decreases level.len(),
{
    if level.len() <= 1 {
        level
    } else {
        level + tree_nodes(next_level(level, sorted), sorted)
    }
}

/// The root of the tree whose bottom level is `level`.
pub open spec fn tree_root(level: Seq<Seq<u8>>, sorted: bool) -> Seq<u8>
    recommends
        level.len() > 0,
    decreases level.len(),
{
    if level.len() <= 1 {
        level[0]
    } else {
        tree_root(next_level(level, sorted), sorted)
    }
}

/// The node that is paired with node `index` of `level`.
pub open spec fn sibling(level: Seq<Seq<u8>>, index: int) -> Seq<u8> {
    if index % 2 == 0 {
        if index + 1 < level.len() {
            level[index + 1]
        } else {
            level[index]
        }
    } else {
        level[index - 1]
    }
}

/// The siblings met on the way from node `index` of `level` to the root,
/// bottom-up.
pub open spec fn tree_path(level: Seq<Seq<u8>>, index: int, sorted: bool) -> Seq<Seq<u8>>
    decreases level.len(),
{
    if level.len() <= 1 {
        Seq::empty()
    } else {
        seq![sibling(level, index)] + tree_path(next_level(level, sorted), index / 2, sorted)
    }
}

/// The ancestors of node `index` of `level`, bottom-up, the root last.
pub open spec fn tree_ancestors(level: Seq<Seq<u8>>, index: int, sorted: bool) -> Seq<Seq<u8>>
    decreases level.len(),
{
    if level.len() <= 1 {
        Seq::empty()
    } else {
        seq![next_level(level, sorted)[index / 2]] + tree_ancestors(
            next_level(level, sorted),
            index / 2,
            sorted,
        )
    }
}

/// A tree holds at least its bottom level, and is empty only over nothing.
pub proof fn lemma_tree_nodes_len(level: Seq<Seq<u8>>, sorted: bool)
    ensures
        tree_nodes(level, sorted).len() >= level.len(),
        level.len() > 1 ==> tree_nodes(level, sorted).len() > level.len(),
    decreases level.len(),
{
    if level.len() > 1 {
        lemma_tree_nodes_len(next_level(level, sorted), sorted);
    }
}

/// The root is the last node of the tree.
pub proof fn lemma_root_is_last(level: Seq<Seq<u8>>, sorted: bool)
    requires
        level.len() > 0,
    ensures
        tree_nodes(level, sorted).len() > 0,
        tree_nodes(level, sorted).last() == tree_root(level, sorted),
    decreases level.len(),
{
    if level.len() > 1 {
        lemma_root_is_last(next_level(level, sorted), sorted);
    }
}

/// One step of a sibling path: a node and its sibling combine, in the order
/// of their positions, to the node's parent.
pub proof fn lemma_parent_of(level: Seq<Seq<u8>>, index: int, sorted: bool)
    requires
        0 <= index < level.len(),
        level.len() > 1,
    ensures
        0 <= index / 2 < next_level(level, sorted).len(),
        index % 2 == 0 ==> next_level(level, sorted)[index / 2] == combine(
            level[index],
            sibling(level, index),
            sorted,
        ),
        index % 2 == 1 ==> next_level(level, sorted)[index / 2] == combine(
            sibling(level, index),
            level[index],
            sorted,
        ),
{
}

/// One entry of a sibling path: the parent reached, and the sibling that
/// led there, on the side where it stands.
#[derive(Debug, PartialEq, Eq)]
pub struct ProofEntry {
    target: [u8; 32],
    left_sibling: Option<[u8; 32]>,
    right_sibling: Option<[u8; 32]>,
}

impl ProofEntry {
    #[verifier::type_invariant]
    spec fn one_sided(self) -> bool {
        self.left_sibling.is_none() != self.right_sibling.is_none()
    }

    /// The parent this entry leads to.
    pub closed spec fn target(self) -> [u8; 32] {
        self.target
    }

    /// The sibling, where it stands to the left.
    pub closed spec fn left(self) -> Option<[u8; 32]> {
        self.left_sibling
    }

    /// The sibling, where it stands to the right.
    pub closed spec fn right(self) -> Option<[u8; 32]> {
        self.right_sibling
    }

    /// The sibling's bytes, whichever side it stands on.
    pub open spec fn sibling(self) -> Seq<u8> {
        match self.left() {
            Some(h) => h@,
            None => match self.right() {
                Some(h) => h@,
                None => Seq::empty(),
            },
        }
    }

    /// Makes an entry from a parent and a sibling on exactly one side.
    pub fn new(target: [u8; 32], left_sibling: Option<[u8; 32]>, right_sibling: Option<[u8; 32]>) -> (entry: Self)
        requires
            left_sibling.is_none() != right_sibling.is_none(),
        ensures
            entry.target() == target,
            entry.left() == left_sibling,
            entry.right() == right_sibling,
    {
        ProofEntry { target, left_sibling, right_sibling }
    }

    /// The parent this entry leads to.
    pub fn get_target(&self) -> (r: &[u8; 32])
        ensures
            *r == self.target(),
    {
        &self.target
    }

    /// The sibling, where it stands to the left.
    pub fn get_left_sibling(&self) -> (r: Option<&[u8; 32]>)
        ensures
            r matches Some(h) ==> self.left() == Some(*h),
            r is None ==> self.left() is None && self.right() is Some,
    {
        proof {
            use_type_invariant(self);
        }
        match &self.left_sibling {
            Some(h) => Some(h),
            None => None,
        }
    }

    /// The sibling, where it stands to the right.
    pub fn get_right_sibling(&self) -> (r: Option<&[u8; 32]>)
        ensures
            r matches Some(h) ==> self.right() == Some(*h),
            r is None ==> self.right() is None && self.left() is Some,
    {
        proof {
            use_type_invariant(self);
        }
        match &self.right_sibling {
            Some(h) => Some(h),
            None => None,
        }
    }
}

/// The siblings of a sequence of entries, in order.
pub open spec fn entry_siblings(entries: Seq<ProofEntry>) -> Seq<Seq<u8>> {
    Seq::new(entries.len(), |i: int| entries[i].sibling())
}

/// The parents of a sequence of entries, in order.
pub open spec fn entry_targets(entries: Seq<ProofEntry>) -> Seq<Seq<u8>> {
    Seq::new(entries.len(), |i: int| entries[i].target()@)
}

/// A sibling path from a leaf to the root, bottom-up.
#[derive(Debug, PartialEq, Eq)]
pub struct Proof {
    entries: Vec<ProofEntry>,
}

impl View for Proof {
    type V = Seq<ProofEntry>;

    closed spec fn view(&self) -> Seq<ProofEntry> {
        self.entries@
    }
}

impl Proof {
    /// The empty path.
    pub fn new() -> (proof: Self)
        ensures
            proof@ == Seq::<ProofEntry>::empty(),
    {
        Proof { entries: Vec::new() }
    }

    /// Appends an entry at the upper end.
    pub fn push(&mut self, entry: ProofEntry)
        ensures
            final(self)@ == old(self)@.push(entry),
    {
        self.entries.push(entry);
    }

    /// Hands out the entries, bottom-up.
    pub fn get_proof_entries(self) -> (entries: Vec<ProofEntry>)
        ensures
            entries@ == self@,
    {
        self.entries
    }
}

/// A Merkle tree: the leaf commitments, then each level above, the root
/// last.
#[derive(Debug)]
pub struct MerkleTree {
    leaf_count: usize,
    nodes: Vec<[u8; 32]>,
    sorted_hashes: bool,
}

/// Number of nodes above a level of `level_len` nodes.
fn next_level_len_of(level_len: usize) -> (r: usize)
    ensures
        r == next_level_len(level_len as nat),
{
    if level_len <= 1 {
        0
    } else {
        level_len / 2 + level_len % 2
    }
}

impl MerkleTree {
    #[verifier::type_invariant]
    spec fn well_formed(self) -> bool {
        &&& self.leaf_count <= self.nodes@.len()
        &&& digests(self.nodes@) == tree_nodes(
            digests(self.nodes@.take(self.leaf_count as int)),
            self.sorted_hashes,
        )
    }

    /// The bottom level: the leaf commitments in insertion order.
    pub closed spec fn leaves(&self) -> Seq<Seq<u8>> {
        digests(self.nodes@.take(self.leaf_count as int))
    }

    /// Whether interior nodes were made by sorted-pair hashing.
    pub closed spec fn sorted(&self) -> bool {
        self.sorted_hashes
    }

    /// Builds the tree over `items`. With `sorted_hashes` the two children
    /// of a node are hashed smaller first, else left first.
    pub fn new(items: &[Vec<u8>], sorted_hashes: bool) -> (tree: MerkleTree)
        ensures
            tree.leaves() == leaf_level(items_view(items@)),
            tree.sorted() == sorted_hashes,
    {
        let ghost bottom = leaf_level(items_view(items@));
        let n = items.len();
        let mut nodes: Vec<[u8; 32]> = Vec::new();
        let mut k: usize = 0;
        while k < n
            invariant
                n == items@.len(),
                k <= n,
                nodes@.len() == k,
                bottom == leaf_level(items_view(items@)),
                forall|j: int| 0 <= j < k ==> (#[trigger] nodes@[j])@ == bottom[j],
            decreases n - k,
        {
            let leaf = hash_leaf(items[k].as_slice());
            nodes.push(leaf);
            k += 1;
        }
        let mut level_len = next_level_len_of(n);
        let mut prev_level_len = n;
        let mut prev_level_start: usize = 0;
        let ghost mut done: Seq<Seq<u8>> = Seq::empty();
        let ghost mut prev: Seq<Seq<u8>> = bottom;
        assert(digests(nodes@) =~= done + prev);
        while level_len > 0
            invariant
                n == items@.len(),
                bottom.len() == n,
                nodes@.len() == prev_level_start + prev_level_len,
                nodes@.len() >= n,
                level_len == next_level_len(prev_level_len as nat),
                done.len() == prev_level_start,
                prev.len() == prev_level_len,
                digests(nodes@) == done + prev,
                tree_nodes(bottom, sorted_hashes) == done + tree_nodes(prev, sorted_hashes),
                forall|j: int| 0 <= j < n ==> (#[trigger] nodes@[j])@ == bottom[j],
            decreases prev_level_len,
        {
            let ghost base = nodes@;
            let ghost above = next_level(prev, sorted_hashes);
            let level_start = nodes.len();
            let mut i: usize = 0;
            while i < level_len
                invariant
                    i <= level_len,
                    level_len == next_level_len(prev_level_len as nat),
                    level_len > 0,
                    base.len() == prev_level_start + prev_level_len,
                    level_start == base.len(),
                    nodes@.len() == base.len() + i,
                    prev.len() == prev_level_len,
                    digests(base) == done + prev,
                    done.len() == prev_level_start,
                    above == next_level(prev, sorted_hashes),
                    forall|j: int| 0 <= j < base.len() ==> #[trigger] nodes@[j] == base[j],
                    forall|j: int| 0 <= j < i ==> (#[trigger] nodes@[base.len() + j])@ == above[j],
                decreases level_len - i,
            {
                let prev_level_idx = 2 * i;
                let left = nodes[prev_level_start + prev_level_idx];
                let right = if prev_level_idx + 1 < prev_level_len {
                    nodes[prev_level_start + prev_level_idx + 1]
                } else {
                    nodes[prev_level_start + prev_level_idx]
                };
                proof {
                    let l = prev_level_start + prev_level_idx;
                    assert(digests(base)[l] == prev[2 * i]);
                    assert(left@ == prev[2 * i]);
                    if prev_level_idx + 1 < prev_level_len {
                        assert(digests(base)[l + 1] == prev[2 * i + 1]);
                    }
                    assert(right@ == right_child(prev, i as int));
                }
                let parent = if sorted_hashes {
                    hash_sorted_pair(&left, &right)
                } else {
                    hash_intermediate(&left, &right)
                };
                assert(parent@ == above[i as int]);
                nodes.push(parent);
                i += 1;
            }
            proof {
                assert forall|j: int| 0 <= j < nodes@.len() implies digests(nodes@)[j] == (digests(
                    base,
                ) + above)[j] by {
                    if j < base.len() {
                        assert(nodes@[j] == base[j]);
                    } else {
                        let t = j - base.len();
                        assert(nodes@[base.len() + t]@ == above[t]);
                    }
                }
                assert(digests(nodes@) =~= digests(base) + above);
                done = done + prev;
                prev = above;
            }
            prev_level_start = level_start;
            prev_level_len = level_len;
            level_len = next_level_len_of(level_len);
        }
        proof {
            assert(digests(nodes@.take(n as int)) =~= bottom);
            assert(tree_nodes(prev, sorted_hashes) == prev);
        }
        MerkleTree { leaf_count: n, nodes, sorted_hashes }
    }

    /// Number of leaves.
    pub fn leaf_count(&self) -> (n: usize)
        ensures
            n == self.leaves().len(),
    {
        proof {
            use_type_invariant(self);
        }
        self.leaf_count
    }

    /// The root, or nothing for the tree over no items.
    pub fn get_root(&self) -> (root: Option<&[u8; 32]>)
        ensures
            root is None <==> self.leaves().len() == 0,
            root matches Some(h) ==> h@ == tree_root(self.leaves(), self.sorted()),
    {
        proof {
            use_type_invariant(self);
            lemma_tree_nodes_len(self.leaves(), self.sorted());
            if self.leaves().len() > 0 {
                lemma_root_is_last(self.leaves(), self.sorted());
            }
        }
        let len = self.nodes.len();
        if len == 0 {
            None
        } else {
            Some(&self.nodes[len - 1])
        }
    }

    /// The sibling path of leaf `index`, or nothing where the tree has no
    /// such leaf. Entry `j` holds the sibling met at level `j`, to the left
    /// where the node on the way stands at an odd position, and the parent
    /// the two combine to.
    pub fn find_path(&self, index: usize) -> (path: Option<Proof>)
        ensures
            path is None <==> index >= self.leaves().len(),
            path matches Some(p) ==> {
                &&& entry_siblings(p@) == tree_path(self.leaves(), index as int, self.sorted())
                &&& entry_targets(p@) == tree_ancestors(
                    self.leaves(),
                    index as int,
                    self.sorted(),
                )
                &&& forall|j: int|
                    0 <= j < p@.len() ==> ((#[trigger] p@[j]).left() is Some <==> position_at(
                        index as int,
                        j as nat,
                    ) % 2 == 1)
            },
    {
        proof {
            use_type_invariant(self);
        }
        if index >= self.leaf_count {
            return None;
        }
        let ghost sorted = self.sorted_hashes;
        let ghost bottom = self.leaves();
        let ghost all = digests(self.nodes@);
        let mut level_len = self.leaf_count;
        let mut level_start: usize = 0;
        let mut path = Proof::new();
        let mut node_index = index;
        let ghost mut cur: Seq<Seq<u8>> = bottom;
        proof {
            assert(all.skip(0) =~= all);
            assert(entry_siblings(path@) =~= Seq::<Seq<u8>>::empty());
            assert(entry_targets(path@) =~= Seq::<Seq<u8>>::empty());
            assert(Seq::<Seq<u8>>::empty() + tree_path(cur, node_index as int, sorted) =~= tree_path(
                cur,
                node_index as int,
                sorted,
            ));
            assert(Seq::<Seq<u8>>::empty() + tree_ancestors(cur, node_index as int, sorted)
                =~= tree_ancestors(cur, node_index as int, sorted));
        }
        while level_len > 1
            invariant
                all == digests(self.nodes@),
                cur.len() == level_len,
                level_len >= 1,
                node_index < level_len,
                level_start <= all.len(),
                all.skip(level_start as int) == tree_nodes(cur, sorted),
                entry_siblings(path@) + tree_path(cur, node_index as int, sorted) == tree_path(
                    bottom,
                    index as int,
                    sorted,
                ),
                entry_targets(path@) + tree_ancestors(cur, node_index as int, sorted)
                    == tree_ancestors(bottom, index as int, sorted),
                node_index as int == position_at(index as int, path@.len()),
                forall|j: int|
                    0 <= j < path@.len() ==> ((#[trigger] path@[j]).left() is Some <==> position_at(
                        index as int,
                        j as nat,
                    ) % 2 == 1),
            decreases level_len,
        {
            let ghost above = next_level(cur, sorted);
            let total = self.nodes.len();
            proof {
                lemma_level_in_nodes(all, level_start as int, cur, node_index as int, sorted);
                assert(all.len() == total);
                let i = node_index as int;
                assert(all[level_start + i] == cur[i]);
                if i + 1 < level_len {
                    assert(all[level_start + (i + 1)] == cur[i + 1]);
                }
                if i >= 1 {
                    assert(all[level_start + (i - 1)] == cur[i - 1]);
                }
            }
            let next_start = level_start + level_len;
            let next_index = node_index / 2;
            let lsib: Option<[u8; 32]>;
            let rsib: Option<[u8; 32]>;
            if node_index % 2 == 0 {
                lsib = None;
                rsib = if node_index + 1 < level_len {
                    Some(self.nodes[level_start + node_index + 1])
                } else {
                    Some(self.nodes[level_start + node_index])
                };
            } else {
                lsib = Some(self.nodes[level_start + node_index - 1]);
                rsib = None;
            }
            let target = self.nodes[next_start + next_index];
            let entry = ProofEntry::new(target, lsib, rsib);
            proof {
                assert(entry.sibling() == sibling(cur, node_index as int));
                assert(entry.target()@ == above[next_index as int]);
                lemma_path_extend(
                    path@,
                    entry,
                    cur,
                    node_index as int,
                    sorted,
                );
            }
            path.push(entry);
            node_index = next_index;
            level_start = next_start;
            level_len = next_level_len_of(level_len);
            proof {
                cur = above;
            }
        }
        proof {
            assert(tree_path(cur, node_index as int, sorted) =~= Seq::<Seq<u8>>::empty());
            assert(tree_ancestors(cur, node_index as int, sorted) =~= Seq::<Seq<u8>>::empty());
            assert(entry_siblings(path@) + Seq::<Seq<u8>>::empty() =~= entry_siblings(path@));
            assert(entry_targets(path@) + Seq::<Seq<u8>>::empty() =~= entry_targets(path@));
        }
        Some(path)
    }
}

/// Position, within level `level`, of the ancestor of leaf `index`.
pub open spec fn position_at(index: int, level: nat) -> int
    decreases level,
{
    if level == 0 {
        index
    } else {
        position_at(index, (level - 1) as nat) / 2
    }
}

/// Where the nodes from `level_start` on are the tree over `cur`, the level
/// `cur` stands first and the tree over the level above follows it.
proof fn lemma_level_in_nodes(
    all: Seq<Seq<u8>>,
    level_start: int,
    cur: Seq<Seq<u8>>,
    node_index: int,
    sorted: bool,
)
    requires
        0 <= level_start <= all.len(),
        all.skip(level_start) == tree_nodes(cur, sorted),
        cur.len() > 1,
        0 <= node_index < cur.len(),
    ensures
        level_start + cur.len() + node_index / 2 < all.len(),
        0 <= node_index / 2 < next_level(cur, sorted).len(),
        forall|j: int| 0 <= j < cur.len() ==> #[trigger] all[level_start + j] == cur[j],
        all[level_start + cur.len() + node_index / 2] == next_level(cur, sorted)[node_index / 2],
        all.skip(level_start + cur.len()) == tree_nodes(next_level(cur, sorted), sorted),
{
    let above = next_level(cur, sorted);
    let rest = all.skip(level_start);
    lemma_tree_nodes_len(above, sorted);
    assert(rest == cur + tree_nodes(above, sorted));
    assert(rest.len() == all.len() - level_start);
    assert forall|j: int| 0 <= j < cur.len() implies #[trigger] all[level_start + j] == cur[j] by {
        assert(rest[j] == all[level_start + j]);
    }
    let t = node_index / 2;
    assert(rest[cur.len() + t] == tree_nodes(above, sorted)[t]);
    assert(rest[cur.len() + t] == all[level_start + cur.len() + t]);
    assert(tree_nodes(above, sorted)[t] == above[t]);
    assert(rest.skip(cur.len() as int) =~= tree_nodes(above, sorted));
    assert(all.skip(level_start + cur.len()) =~= rest.skip(cur.len() as int));
}

/// Appending the entry for one level moves a path one level up.
proof fn lemma_path_extend(
    path: Seq<ProofEntry>,
    entry: ProofEntry,
    cur: Seq<Seq<u8>>,
    node_index: int,
    sorted: bool,
)
    requires
        cur.len() > 1,
        0 <= node_index < cur.len(),
        entry.sibling() == sibling(cur, node_index),
        entry.target()@ == next_level(cur, sorted)[node_index / 2],
    ensures
        entry_siblings(path.push(entry)) + tree_path(next_level(cur, sorted), node_index / 2, sorted)
            == entry_siblings(path) + tree_path(cur, node_index, sorted),
        entry_targets(path.push(entry)) + tree_ancestors(
            next_level(cur, sorted),
            node_index / 2,
            sorted,
        ) == entry_targets(path) + tree_ancestors(cur, node_index, sorted),
{
    let above = next_level(cur, sorted);
    let longer = path.push(entry);
    assert(entry_siblings(longer) =~= entry_siblings(path) + seq![sibling(cur, node_index)]);
    assert(entry_targets(longer) =~= entry_targets(path) + seq![above[node_index / 2]]);
    assert(entry_siblings(longer) + tree_path(above, node_index / 2, sorted) =~= entry_siblings(path)
        + tree_path(cur, node_index, sorted));
    assert(entry_targets(longer) + tree_ancestors(above, node_index / 2, sorted) =~= entry_targets(
        path,
    ) + tree_ancestors(cur, node_index, sorted));
}

} // verus!
