//! What holds of trees, proofs and their checking: a member's proof leads to
//! the root, and nothing else leads there except through a collision of
//! SHA-256.
use vstd::prelude::*;
use crate::generated_merkle_tree::{member_leaves, merkle_proof, merkle_root, GeneratedMerkleTree};
use crate::hash::{
    joined, leaf_hash, leaf_parts, lemma_lex_le_antisymmetric, lemma_lex_le_total,
    lemma_node_hash_commutative, lex_le, node_hash, node_parts, sha256, sorted_parts, HASH_BYTES,
    INTERMEDIATE_PREFIX,
};
use crate::merkle_tree::{digests, lemma_parent_of, next_level, sibling, tree_path, tree_root};
use crate::verify::{fold_proof, lemma_fold_split, verify_spec};

verus! {

/// A collision of SHA-256: two inputs with different bytes and one digest.
pub open spec fn collides(a: Seq<Seq<u8>>, b: Seq<Seq<u8>>) -> bool {
    joined(a) != joined(b) && sha256(a) == sha256(b)
}

/// Whether every element has the length of a digest.
pub open spec fn all_digests(hashes: Seq<Seq<u8>>) -> bool {
    forall|i: int| 0 <= i < hashes.len() ==> (#[trigger] hashes[i]).len() == HASH_BYTES
}

/// Whether, somewhere along `proof`, the walk from `x` and the walk from
/// `y` hash different bytes to one digest.
pub open spec fn walks_collide(x: Seq<u8>, y: Seq<u8>, proof: Seq<Seq<u8>>) -> bool
    decreases proof.len(),
{
    proof.len() > 0 && (collides(sorted_parts(x, proof[0]), sorted_parts(y, proof[0]))
        || walks_collide(node_hash(x, proof[0]), node_hash(y, proof[0]), proof.drop_first()))
}

/// Whether the commitments to the identities `u` and `m` collide: at the
/// digest of the identity, at the leaf, or along `proof`.
pub open spec fn commitments_collide(u: Seq<u8>, m: Seq<u8>, proof: Seq<Seq<u8>>) -> bool {
    ||| collides(seq![u], seq![m])
    ||| collides(leaf_parts(sha256(seq![u])), leaf_parts(sha256(seq![m])))
    ||| walks_collide(leaf_hash(u), leaf_hash(m), proof)
}

/// Whether putting `replacement` at `position` of `proof` meets a collision
/// on the walk from `leaf`: at the changed step or after it.
pub open spec fn tamper_collides(
    proof: Seq<Seq<u8>>,
    leaf: Seq<u8>,
    position: int,
    replacement: Seq<u8>,
) -> bool {
    let reached = fold_proof(leaf, proof.take(position));
    ||| collides(sorted_parts(reached, proof[position]), sorted_parts(reached, replacement))
    ||| walks_collide(
        node_hash(reached, proof[position]),
        node_hash(reached, replacement),
        proof.skip(position + 1),
    )
}

/// `hash` with bit `bit` of byte `byte` inverted.
pub open spec fn flip_bit(hash: Seq<u8>, byte: int, bit: u8) -> Seq<u8> {
    hash.update(byte, hash[byte] ^ (1u8 << bit))
}

/// The bytes hashed for an interior node: prefix, left child, right child.
proof fn lemma_joined_node_parts(left: Seq<u8>, right: Seq<u8>)
    ensures
        joined(node_parts(left, right)) == seq![INTERMEDIATE_PREFIX] + left + right,
{
    let parts = node_parts(left, right);
    let two = parts.drop_last();
    let one = two.drop_last();
    assert(one.drop_last() =~= Seq::<Seq<u8>>::empty());
    assert(joined(one) =~= seq![INTERMEDIATE_PREFIX]) by {
        assert(joined(one.drop_last()) =~= Seq::<u8>::empty());
    }
    assert(joined(two) =~= seq![INTERMEDIATE_PREFIX] + left);
    assert(joined(parts) =~= seq![INTERMEDIATE_PREFIX] + left + right);
}

/// The bytes hashed for a leaf: prefix, then the item.
proof fn lemma_joined_leaf_parts(item: Seq<u8>)
    ensures
        joined(leaf_parts(item)) == seq![crate::hash::LEAF_PREFIX] + item,
{
    let parts = leaf_parts(item);
    let one = parts.drop_last();
    assert(one.drop_last() =~= Seq::<Seq<u8>>::empty());
    assert(joined(one) =~= seq![crate::hash::LEAF_PREFIX]) by {
        assert(joined(one.drop_last()) =~= Seq::<u8>::empty());
    }
    assert(joined(parts) =~= seq![crate::hash::LEAF_PREFIX] + item);
}

/// The bytes hashed for a single part are the part.
proof fn lemma_joined_single(part: Seq<u8>)
    ensures
        joined(seq![part]) == part,
{
    let parts = seq![part];
    assert(parts.drop_last() =~= Seq::<Seq<u8>>::empty());
    assert(joined(parts.drop_last()) =~= Seq::<u8>::empty());
    assert(joined(parts) =~= part);
}

/// Two different digests differ at some byte.
proof fn lemma_differ_somewhere(a: Seq<u8>, b: Seq<u8>) -> (k: int)
    requires
        a.len() == b.len(),
        a != b,
    ensures
        0 <= k < a.len(),
        a[k] != b[k],
{
    if forall|i: int| 0 <= i < a.len() ==> a[i] == b[i] {
        assert(a =~= b);
    }
    choose|i: int| 0 <= i < a.len() && a[i] != b[i]
}

/// Two node inputs made of digests have the same bytes only where both
/// children agree.
proof fn lemma_node_parts_differ(l1: Seq<u8>, r1: Seq<u8>, l2: Seq<u8>, r2: Seq<u8>)
    requires
        l1.len() == HASH_BYTES,
        r1.len() == HASH_BYTES,
        l2.len() == HASH_BYTES,
        r2.len() == HASH_BYTES,
        l1 != l2 || r1 != r2,
    ensures
        joined(node_parts(l1, r1)) != joined(node_parts(l2, r2)),
{
    lemma_joined_node_parts(l1, r1);
    lemma_joined_node_parts(l2, r2);
    let a = joined(node_parts(l1, r1));
    let b = joined(node_parts(l2, r2));
    if l1 != l2 {
        let k = lemma_differ_somewhere(l1, l2);
        assert(a[1 + k] == l1[k]);
        assert(b[1 + k] == l2[k]);
    } else {
        let k = lemma_differ_somewhere(r1, r2);
        assert(a[33 + k] == r1[k]);
        assert(b[33 + k] == r2[k]);
    }
}

/// Combined with one sibling, two different digests give inputs with
/// different bytes.
pub proof fn lemma_sorted_parts_differ(x: Seq<u8>, y: Seq<u8>, s: Seq<u8>)
    requires
        x.len() == HASH_BYTES,
        y.len() == HASH_BYTES,
        s.len() == HASH_BYTES,
        x != y,
    ensures
        joined(sorted_parts(x, s)) != joined(sorted_parts(y, s)),
        joined(sorted_parts(s, x)) != joined(sorted_parts(s, y)),
{
    lemma_lex_le_total(x, s);
    lemma_lex_le_total(y, s);
    if lex_le(x, s) && lex_le(s, x) {
        lemma_lex_le_antisymmetric(x, s);
    }
    if lex_le(y, s) && lex_le(s, y) {
        lemma_lex_le_antisymmetric(y, s);
    }
    if lex_le(x, s) {
        if lex_le(y, s) {
            lemma_node_parts_differ(x, s, y, s);
        } else {
            lemma_node_parts_differ(x, s, s, y);
        }
    } else {
        if lex_le(y, s) {
            lemma_node_parts_differ(s, x, y, s);
        } else {
            lemma_node_parts_differ(s, x, s, y);
        }
    }
    assert(sorted_parts(s, x) == sorted_parts(x, s));
    assert(sorted_parts(s, y) == sorted_parts(y, s));
}

/// A walk from a digest stays among the digests.
pub proof fn lemma_fold_is_digest(leaf: Seq<u8>, proof: Seq<Seq<u8>>)
    requires
        leaf.len() == HASH_BYTES,
    ensures
        fold_proof(leaf, proof).len() == HASH_BYTES,
    decreases proof.len(),
{
    if proof.len() > 0 {
        lemma_fold_is_digest(node_hash(leaf, proof[0]), proof.drop_first());
    }
}

/// Every level above a level of digests is a level of digests, and so is
/// every sibling path.
pub proof fn lemma_path_of_digests(level: Seq<Seq<u8>>, index: int, sorted: bool)
    requires
        all_digests(level),
        0 <= index < level.len(),
    ensures
        all_digests(tree_path(level, index, sorted)),
    decreases level.len(),
{
    if level.len() > 1 {
        let above = next_level(level, sorted);
        lemma_parent_of(level, index, sorted);
        lemma_path_of_digests(above, index / 2, sorted);
        let path = tree_path(level, index, sorted);
        let rest = tree_path(above, index / 2, sorted);
        assert forall|i: int| 0 <= i < path.len() implies (#[trigger] path[i]).len()
            == HASH_BYTES by {
            if i > 0 {
                assert(path[i] == rest[i - 1]);
            }
        }
    }
}

/// Along one proof, walks from two different digests end at different
/// digests, unless they meet a collision on the way.
pub proof fn lemma_walks_stay_apart(x: Seq<u8>, y: Seq<u8>, proof: Seq<Seq<u8>>)
    requires
        x.len() == HASH_BYTES,
        y.len() == HASH_BYTES,
        all_digests(proof),
        x != y,
        !walks_collide(x, y, proof),
    ensures
        fold_proof(x, proof) != fold_proof(y, proof),
    decreases proof.len(),
{
    if proof.len() > 0 {
        lemma_sorted_parts_differ(x, y, proof[0]);
        let rest = proof.drop_first();
        assert forall|i: int| 0 <= i < rest.len() implies (#[trigger] rest[i]).len()
            == HASH_BYTES by {
            assert(rest[i] == proof[i + 1]);
        }
        lemma_walks_stay_apart(node_hash(x, proof[0]), node_hash(y, proof[0]), rest);
    }
}

/// In a tree with sorted-pair hashing, the sibling path of a node leads
/// from that node to the root.
pub proof fn lemma_path_reaches_root(level: Seq<Seq<u8>>, index: int)
    requires
        0 <= index < level.len(),
    ensures
        fold_proof(level[index], tree_path(level, index, true)) == tree_root(level, true),
    decreases level.len(),
{
    if level.len() > 1 {
        let above = next_level(level, true);
        let path = tree_path(level, index, true);
        lemma_parent_of(level, index, true);
        lemma_node_hash_commutative(level[index], sibling(level, index));
        assert(path[0] == sibling(level, index));
        assert(path.drop_first() =~= tree_path(above, index / 2, true));
        lemma_path_reaches_root(above, index / 2);
    }
}

/// Inclusion: for every ordered member list and every member of it, the
/// member's proof validates the member's leaf against the list's root.
pub proof fn lemma_inclusion(ids: Seq<Seq<u8>>, index: int)
    requires
        0 <= index < ids.len(),
    ensures
        verify_spec(merkle_proof(ids, index), merkle_root(ids), leaf_hash(ids[index])),
{
    lemma_path_reaches_root(member_leaves(ids), index);
}

/// Determinism: two trees built over the same ordered member list have the
/// same root, the same size, and the same proof for every member.
pub proof fn lemma_build_deterministic(
    first: GeneratedMerkleTree,
    second: GeneratedMerkleTree,
    ids: Seq<Seq<u8>>,
)
    requires
        first.commits_to(ids),
        second.commits_to(ids),
    ensures
        first.merkle_root == second.merkle_root,
        first.max_num_nodes == second.max_num_nodes,
        forall|i: int|
            0 <= i < ids.len() ==> first.tree_nodes@[i].user == second.tree_nodes@[i].user
                && digests(first.tree_nodes@[i].proof.unwrap()@) == digests(
                second.tree_nodes@[i].proof.unwrap()@,
            ),
{
    assert(first.merkle_root =~= second.merkle_root);
    assert forall|i: int| 0 <= i < ids.len() implies first.tree_nodes@[i].user
        == second.tree_nodes@[i].user && digests(first.tree_nodes@[i].proof.unwrap()@) == digests(
        second.tree_nodes@[i].proof.unwrap()@,
    ) by {
        assert(first.tree_nodes@[i].user@ == ids[i]);
        assert(second.tree_nodes@[i].user@ == ids[i]);
        assert(first.tree_nodes@[i].user =~= second.tree_nodes@[i].user);
    }
}

/// Exclusion: a proof built from a member list for one of its members does
/// not validate an identity outside the list against the list's root,
/// unless the two commitments collide.
pub proof fn lemma_exclusion(ids: Seq<Seq<u8>>, index: int, outsider: Seq<u8>)
    requires
        0 <= index < ids.len(),
        !ids.contains(outsider),
        !commitments_collide(outsider, ids[index], merkle_proof(ids, index)),
    ensures
        !verify_spec(merkle_proof(ids, index), merkle_root(ids), leaf_hash(outsider)),
{
    let member = ids[index];
    let proof = merkle_proof(ids, index);
    lemma_inclusion(ids, index);
    assert(member != outsider);
    lemma_joined_single(outsider);
    lemma_joined_single(member);
    assert(sha256(seq![outsider]) != sha256(seq![member]));
    lemma_joined_leaf_parts(sha256(seq![outsider]));
    lemma_joined_leaf_parts(sha256(seq![member]));
    let a = joined(leaf_parts(sha256(seq![outsider])));
    let b = joined(leaf_parts(sha256(seq![member])));
    let k = lemma_differ_somewhere(sha256(seq![outsider]), sha256(seq![member]));
    assert(a[1 + k] != b[1 + k]);
    assert(leaf_hash(outsider) != leaf_hash(member));
    assert(all_digests(member_leaves(ids)));
    lemma_path_of_digests(member_leaves(ids), index, true);
    lemma_walks_stay_apart(leaf_hash(outsider), leaf_hash(member), proof);
}

/// Root rotation: a proof that validates a leaf against one root does not
/// validate it against another. A member's proof under the old list is
/// therefore void once the stored root is that of a list with another
/// root.
pub proof fn lemma_root_rotation(old_ids: Seq<Seq<u8>>, index: int, new_ids: Seq<Seq<u8>>)
    requires
        0 <= index < old_ids.len(),
        !new_ids.contains(old_ids[index]),
        merkle_root(new_ids) != merkle_root(old_ids),
    ensures
        verify_spec(merkle_proof(old_ids, index), merkle_root(old_ids), leaf_hash(old_ids[index])),
        !verify_spec(merkle_proof(old_ids, index), merkle_root(new_ids), leaf_hash(old_ids[index])),
{
    lemma_inclusion(old_ids, index);
}

/// A proof validates a leaf against at most one root.
pub proof fn lemma_one_root(proof: Seq<Seq<u8>>, first: Seq<u8>, second: Seq<u8>, leaf: Seq<u8>)
    requires
        verify_spec(proof, first, leaf),
        first != second,
    ensures
        !verify_spec(proof, second, leaf),
{
}

/// Tamper sensitivity: where one element of a valid proof is replaced by
/// another digest, the proof no longer validates, unless the change meets a
/// collision.
pub proof fn lemma_tamper(
    proof: Seq<Seq<u8>>,
    root: Seq<u8>,
    leaf: Seq<u8>,
    position: int,
    replacement: Seq<u8>,
)
    requires
        all_digests(proof),
        leaf.len() == HASH_BYTES,
        replacement.len() == HASH_BYTES,
        verify_spec(proof, root, leaf),
        0 <= position < proof.len(),
        replacement != proof[position],
        !tamper_collides(proof, leaf, position, replacement),
    ensures
        !verify_spec(proof.update(position, replacement), root, leaf),
{
    let changed = proof.update(position, replacement);
    let reached = fold_proof(leaf, proof.take(position));
    let rest = proof.skip(position + 1);
    lemma_fold_is_digest(leaf, proof.take(position));
    lemma_fold_split(leaf, proof, position);
    lemma_fold_split(leaf, changed, position);
    assert(changed.take(position) =~= proof.take(position));
    assert(proof.skip(position).drop_first() =~= rest);
    assert(changed.skip(position).drop_first() =~= rest);
    assert(proof.skip(position)[0] == proof[position]);
    assert(changed.skip(position)[0] == replacement);
    lemma_sorted_parts_differ(proof[position], replacement, reached);
    assert forall|i: int| 0 <= i < rest.len() implies (#[trigger] rest[i]).len()
        == HASH_BYTES by {
        assert(rest[i] == proof[position + 1 + i]);
    }
    lemma_walks_stay_apart(
        node_hash(reached, proof[position]),
        node_hash(reached, replacement),
        rest,
    );
}

/// Inverting one bit of a byte changes the byte.
pub proof fn lemma_flip_changes(hash: Seq<u8>, byte: int, bit: u8)
    requires
        0 <= byte < hash.len(),
        bit < 8,
    ensures
        flip_bit(hash, byte, bit) != hash,
        flip_bit(hash, byte, bit).len() == hash.len(),
{
    let b = hash[byte];
    assert(b ^ (1u8 << bit) != b) by (bit_vector)
        requires
            bit < 8,
    ;
    assert(flip_bit(hash, byte, bit)[byte] != hash[byte]);
}

/// Tamper sensitivity, bit by bit: inverting any one bit of any element of
/// a valid proof makes the proof fail, unless the change meets a
/// collision.
pub proof fn lemma_bit_flip(
    proof: Seq<Seq<u8>>,
    root: Seq<u8>,
    leaf: Seq<u8>,
    position: int,
    byte: int,
    bit: u8,
)
    requires
        all_digests(proof),
        leaf.len() == HASH_BYTES,
        verify_spec(proof, root, leaf),
        0 <= position < proof.len(),
        0 <= byte < HASH_BYTES,
        bit < 8,
        !tamper_collides(proof, leaf, position, flip_bit(proof[position], byte, bit)),
    ensures
        !verify_spec(
            proof.update(position, flip_bit(proof[position], byte, bit)),
            root,
            leaf,
        ),
{
    lemma_flip_changes(proof[position], byte, bit);
    lemma_tamper(proof, root, leaf, position, flip_bit(proof[position], byte, bit));
}

/// Whether SHA-256 has a collision at all.
pub open spec fn collision_exists() -> bool {
    exists|a: Seq<Seq<u8>>, b: Seq<Seq<u8>>| collides(a, b)
}

/// Whether `value` is a node of the sorted-pair tree whose bottom level is
/// `level`.
pub open spec fn in_tree(level: Seq<Seq<u8>>, value: Seq<u8>) -> bool
    decreases level.len(),
{
    level.contains(value) || (level.len() > 1 && in_tree(next_level(level, true), value))
}

/// The root is a node of its tree.
pub proof fn lemma_root_in_tree(level: Seq<Seq<u8>>)
    requires
        level.len() > 0,
    ensures
        in_tree(level, tree_root(level, true)),
    decreases level.len(),
{
    if level.len() > 1 {
        lemma_root_in_tree(next_level(level, true));
    } else {
        assert(level[0] == tree_root(level, true));
    }
}

/// Two sorted pairs of digests that feed the same bytes to the hash are the
/// same pair.
proof fn lemma_same_sorted_pair(x: Seq<u8>, s: Seq<u8>, a: Seq<u8>, b: Seq<u8>)
    requires
        x.len() == HASH_BYTES,
        s.len() == HASH_BYTES,
        a.len() == HASH_BYTES,
        b.len() == HASH_BYTES,
        joined(sorted_parts(x, s)) == joined(sorted_parts(a, b)),
    ensures
        x == a || x == b,
{
    let (p, q) = if lex_le(x, s) {
        (x, s)
    } else {
        (s, x)
    };
    let (u, v) = if lex_le(a, b) {
        (a, b)
    } else {
        (b, a)
    };
    if p != u || q != v {
        lemma_node_parts_differ(p, q, u, v);
    }
}

/// A leaf and an interior node never feed the same bytes to the hash: the
/// one begins with the leaf prefix, the other with the node prefix.
proof fn lemma_domains_apart(item: Seq<u8>, left: Seq<u8>, right: Seq<u8>)
    ensures
        joined(leaf_parts(item)) != joined(node_parts(left, right)),
{
    lemma_joined_leaf_parts(item);
    lemma_joined_node_parts(left, right);
    assert(joined(leaf_parts(item))[0] == 0u8);
    assert(joined(node_parts(left, right))[0] == 1u8);
}

/// Where the parent of `x` and `s` is a node above the bottom level, `x` is
/// a node of the tree, or a collision exists.
proof fn lemma_child_in_tree(level: Seq<Seq<u8>>, x: Seq<u8>, s: Seq<u8>)
    requires
        all_digests(level),
        level.len() > 1,
        x.len() == HASH_BYTES,
        s.len() == HASH_BYTES,
        in_tree(next_level(level, true), node_hash(x, s)),
    ensures
        in_tree(level, x) || collision_exists(),
    decreases level.len(),
{
    let above = next_level(level, true);
    let y = node_hash(x, s);
    if above.contains(y) {
        let t = choose|t: int| 0 <= t < above.len() && above[t] == y;
        let a = level[2 * t];
        let b = crate::merkle_tree::right_child(level, t);
        assert(above[t] == node_hash(a, b));
        if joined(sorted_parts(x, s)) == joined(sorted_parts(a, b)) {
            lemma_same_sorted_pair(x, s, a, b);
            assert(level.contains(x)) by {
                if x == a {
                    assert(level[2 * t] == x);
                } else {
                    if 2 * t + 1 < level.len() {
                        assert(level[2 * t + 1] == x);
                    } else {
                        assert(level[2 * t] == x);
                    }
                }
            }
        } else {
            assert(collides(sorted_parts(x, s), sorted_parts(a, b)));
        }
    } else {
        lemma_child_in_tree(above, x, s);
    }
}

/// A walk that ends at a node of the tree over the members began at a node
/// of that tree, or a collision exists.
proof fn lemma_walk_began_in_tree(ids: Seq<Seq<u8>>, x: Seq<u8>, proof: Seq<Seq<u8>>)
    requires
        x.len() == HASH_BYTES,
        all_digests(proof),
        in_tree(member_leaves(ids), fold_proof(x, proof)),
    ensures
        in_tree(member_leaves(ids), x) || collision_exists(),
    decreases proof.len(),
{
    let leaves = member_leaves(ids);
    if proof.len() > 0 {
        let s = proof[0];
        let y = node_hash(x, s);
        let rest = proof.drop_first();
        assert forall|i: int| 0 <= i < rest.len() implies (#[trigger] rest[i]).len()
            == HASH_BYTES by {
            assert(rest[i] == proof[i + 1]);
        }
        lemma_walk_began_in_tree(ids, y, rest);
        if in_tree(leaves, y) {
            if leaves.contains(y) {
                let i = choose|i: int| 0 <= i < leaves.len() && leaves[i] == y;
                let item = sha256(seq![ids[i]]);
                assert(leaves[i] == sha256(leaf_parts(item)));
                if lex_le(x, s) {
                    lemma_domains_apart(item, x, s);
                } else {
                    lemma_domains_apart(item, s, x);
                }
                assert(collides(leaf_parts(item), sorted_parts(x, s)));
            } else {
                lemma_child_in_tree(leaves, x, s);
            }
        }
    }
}

/// A node above the bottom level that is the commitment to an identity
/// shows a collision: it was hashed with the node prefix.
proof fn lemma_leaf_above_bottom(level: Seq<Seq<u8>>, identity: Seq<u8>)
    requires
        level.len() > 1,
        in_tree(next_level(level, true), leaf_hash(identity)),
    ensures
        collision_exists(),
    decreases level.len(),
{
    let above = next_level(level, true);
    let y = leaf_hash(identity);
    if above.contains(y) {
        let t = choose|t: int| 0 <= t < above.len() && above[t] == y;
        let a = level[2 * t];
        let b = crate::merkle_tree::right_child(level, t);
        assert(above[t] == node_hash(a, b));
        let item = sha256(seq![identity]);
        if lex_le(a, b) {
            lemma_domains_apart(item, a, b);
        } else {
            lemma_domains_apart(item, b, a);
        }
        assert(collides(leaf_parts(item), sorted_parts(a, b)));
    } else {
        lemma_leaf_above_bottom(above, identity);
    }
}

/// Only members validate: whatever proof leads from the commitment to an
/// identity to the root of a member list, the identity is a member of the
/// list, or SHA-256 has a collision.
pub proof fn lemma_only_members_validate(ids: Seq<Seq<u8>>, identity: Seq<u8>, proof: Seq<Seq<u8>>)
    requires
        ids.len() > 0,
        all_digests(proof),
        verify_spec(proof, merkle_root(ids), leaf_hash(identity)),
    ensures
        ids.contains(identity) || collision_exists(),
{
    let leaves = member_leaves(ids);
    let leaf = leaf_hash(identity);
    lemma_root_in_tree(leaves);
    lemma_walk_began_in_tree(ids, leaf, proof);
    if in_tree(leaves, leaf) {
        if leaves.contains(leaf) {
            let i = choose|i: int| 0 <= i < leaves.len() && leaves[i] == leaf;
            let member = ids[i];
            if member != identity {
                lemma_joined_single(member);
                lemma_joined_single(identity);
                if sha256(seq![member]) == sha256(seq![identity]) {
                    assert(collides(seq![member], seq![identity]));
                } else {
                    let a = sha256(seq![member]);
                    let b = sha256(seq![identity]);
                    lemma_joined_leaf_parts(a);
                    lemma_joined_leaf_parts(b);
                    let k = lemma_differ_somewhere(a, b);
                    assert(joined(leaf_parts(a))[1 + k] != joined(leaf_parts(b))[1 + k]);
                    assert(collides(leaf_parts(a), leaf_parts(b)));
                }
            } else {
                assert(ids[i] == identity);
            }
        } else {
            lemma_leaf_above_bottom(leaves, identity);
        }
    }
}

/// Root rotation, whatever the new root: a member's proof under the old
/// list validates under the old root, and once the stored root is that of
/// a list without the member, it no longer validates, or SHA-256 has a
/// collision.
pub proof fn lemma_rotation_invalidates(old_ids: Seq<Seq<u8>>, index: int, new_ids: Seq<Seq<u8>>)
    requires
        0 <= index < old_ids.len(),
        new_ids.len() > 0,
        !new_ids.contains(old_ids[index]),
    ensures
        verify_spec(merkle_proof(old_ids, index), merkle_root(old_ids), leaf_hash(old_ids[index])),
        !verify_spec(merkle_proof(old_ids, index), merkle_root(new_ids), leaf_hash(old_ids[index]))
            || collision_exists(),
{
    lemma_inclusion(old_ids, index);
    assert(all_digests(member_leaves(old_ids)));
    lemma_path_of_digests(member_leaves(old_ids), index, true);
    if verify_spec(merkle_proof(old_ids, index), merkle_root(new_ids), leaf_hash(old_ids[index])) {
        lemma_only_members_validate(new_ids, old_ids[index], merkle_proof(old_ids, index));
    }
}

} // verus!
