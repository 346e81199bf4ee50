//! Checking a sibling path against a stored root.
use vstd::prelude::*;
use crate::hash::{hash_eq, hash_sorted_pair, node_hash};
use crate::merkle_tree::digests;

verus! {

/// The digest reached from `leaf` by combining it, sorted-pair-wise, with
/// each element of `proof` in turn.
pub open spec fn fold_proof(leaf: Seq<u8>, proof: Seq<Seq<u8>>) -> Seq<u8>
    decreases proof.len(),
{
    if proof.len() == 0 {
        leaf
    } else {
        fold_proof(node_hash(leaf, proof[0]), proof.drop_first())
    }
}

/// Whether `proof` leads from `leaf` to `root`.
pub open spec fn verify_spec(proof: Seq<Seq<u8>>, root: Seq<u8>, leaf: Seq<u8>) -> bool {
    fold_proof(leaf, proof) == root
}

/// Folding a path is folding its first part, then the rest from there.
pub proof fn lemma_fold_split(leaf: Seq<u8>, proof: Seq<Seq<u8>>, k: int)
    requires
        0 <= k <= proof.len(),
    ensures
        fold_proof(leaf, proof) == fold_proof(fold_proof(leaf, proof.take(k)), proof.skip(k)),
    decreases k,
{
    if k == 0 {
        assert(proof.skip(0) =~= proof);
        assert(proof.take(0) =~= Seq::<Seq<u8>>::empty());
    } else {
        let first = node_hash(leaf, proof[0]);
        lemma_fold_split(first, proof.drop_first(), k - 1);
        assert(proof.take(k).drop_first() =~= proof.drop_first().take(k - 1));
        assert(proof.drop_first().skip(k - 1) =~= proof.skip(k));
        assert(proof.take(k)[0] == proof[0]);
    }
}

/// Replays `proof` from `leaf` and tells whether the walk ends at `root`.
/// The side of each sibling is not needed: the combination sorts the pair.
pub fn verify(proof: Vec<[u8; 32]>, root: [u8; 32], leaf: [u8; 32]) -> (ok: bool)
    ensures
        ok == verify_spec(digests(proof@), root@, leaf@),
{
    verify_slice(proof.as_slice(), &root, &leaf)
}

/// Replays a borrowed `proof` from `leaf` and tells whether the walk ends
/// at `root`.
pub fn verify_slice(proof: &[[u8; 32]], root: &[u8; 32], leaf: &[u8; 32]) -> (ok: bool)
    ensures
        ok == verify_spec(digests(proof@), root@, leaf@),
{
    let ghost path = digests(proof@);
    let mut computed_hash = *leaf;
    let mut i: usize = 0;
    assert(path.skip(0) =~= path);
    while i < proof.len()
        invariant
            i <= proof.len(),
            path == digests(proof@),
            fold_proof(leaf@, path) == fold_proof(computed_hash@, path.skip(i as int)),
        decreases proof.len() - i,
    {
        proof {
            let rest = path.skip(i as int);
            assert(rest[0] == proof@[i as int]@);
            assert(rest.drop_first() =~= path.skip(i + 1));
        }
        computed_hash = hash_sorted_pair(&computed_hash, &proof[i]);
        i += 1;
    }
    hash_eq(&computed_hash, root)
}

} // verus!
