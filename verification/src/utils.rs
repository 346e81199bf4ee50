//! Extraction of plain sibling lists from a tree.
use vstd::prelude::*;
use crate::error::MerkleTreeError;
use crate::merkle_tree::{digests, entry_siblings, tree_path, MerkleTree, ProofEntry};

verus! {

/// The sibling hashes on the way from leaf `index` to the root, bottom-up,
/// without their sides. Where the tree has no leaf `index`, the result is a
/// validation error that says so.
pub fn get_proof(merkle_tree: &MerkleTree, index: usize) -> (result: Result<
    Vec<[u8; 32]>,
    MerkleTreeError,
>)
    ensures
        index < merkle_tree.leaves().len() ==> (result matches Ok(proof) && digests(proof@)
            == tree_path(merkle_tree.leaves(), index as int, merkle_tree.sorted())),
        index >= merkle_tree.leaves().len() ==> (result matches Err(
            MerkleTreeError::MerkleValidationError(text),
        ) && text@ == "path to index"@),
{
    let mut proof: Vec<[u8; 32]> = Vec::new();
    let path = match merkle_tree.find_path(index) {
        Some(path) => path,
        None => {
            return Err(MerkleTreeError::MerkleValidationError("path to index".to_string()));
        },
    };
    let ghost entries_view = path@;
    let entries = path.get_proof_entries();
    let mut i: usize = 0;
    while i < entries.len()
        invariant
            i <= entries.len(),
            entries@ == entries_view,
            proof@.len() == i,
            forall|j: int| 0 <= j < i ==> (#[trigger] proof@[j])@ == entries@[j].sibling(),
        decreases entries.len() - i,
    {
        let branch: &ProofEntry = &entries[i];
        if let Some(hash) = branch.get_left_sibling() {
            proof.push(*hash);
        } else if let Some(hash) = branch.get_right_sibling() {
            proof.push(*hash);
        } else {
            return Err(
                MerkleTreeError::MerkleValidationError(
                    "expected some hash at each level of the tree".to_string(),
                ),
            );
        }
        i += 1;
    }
    assert(digests(proof@) =~= entry_siblings(entries@));
    Ok(proof)
}

} // verus!
