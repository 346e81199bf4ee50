//! One generated tree for each entry of a collection.
use vstd::prelude::*;
use crate::error::MerkleTreeError;
use crate::generated_merkle_tree::GeneratedMerkleTree;
use crate::vault_whitelist_meta_collection::VaultWhitelistMetaCollection;

verus! {

/// The trees generated from a collection, one for each of its entries.
#[derive(Clone, Debug)]
pub struct GeneratedMerkleTreeCollection {
    /// The trees, in the order of the entries.
    pub generated_merkle_trees: Vec<GeneratedMerkleTree>,
}

impl GeneratedMerkleTreeCollection {
    /// Generates, for each entry of the collection, the tree over that
    /// entry alone.
    pub fn new_from_stake_meta_collection(vault_whitelist_meta_coll: VaultWhitelistMetaCollection) -> (result:
        Result<Self, MerkleTreeError>)
        ensures
            result matches Ok(collection) && {
                &&& collection.generated_merkle_trees@.len()
                    == vault_whitelist_meta_coll.vault_whitelist_metas@.len()
                &&& forall|i: int|
                    0 <= i < collection.generated_merkle_trees@.len() ==> (
                    #[trigger] collection.generated_merkle_trees@[i]).commits_to(
                        seq![vault_whitelist_meta_coll.vault_whitelist_metas@[i].user@],
                    )
            },
    {
        let metas = &vault_whitelist_meta_coll.vault_whitelist_metas;
        let mut generated_merkle_trees: Vec<GeneratedMerkleTree> = Vec::new();
        let mut i: usize = 0;
        while i < metas.len()
            invariant
                i <= metas@.len(),
                generated_merkle_trees@.len() == i,
                forall|j: int|
                    0 <= j < i ==> (#[trigger] generated_merkle_trees@[j]).commits_to(
                        seq![metas@[j].user@],
                    ),
            decreases metas@.len() - i,
        {
            let entry = vstd::slice::slice_subrange(metas.as_slice(), i, i + 1);
            proof {
                assert(crate::vault_whitelist_meta::member_ids(entry@) =~= seq![metas@[i as int].user@]);
            }
            let tree = match GeneratedMerkleTree::new(entry) {
                Ok(tree) => tree,
                Err(e) => {
                    return Err(e);
                },
            };
            generated_merkle_trees.push(tree);
            i += 1;
        }
        Ok(Self { generated_merkle_trees })
    }
}

} // verus!
