//! A member together with its proof of inclusion.
use vstd::prelude::*;
use crate::hash::{hash_bytes, sha256};
use crate::vault_whitelist_meta::VaultWhitelistMeta;

verus! {

/// One leaf of a generated tree: the user and, once the tree is built, the
/// sibling path that proves the user's inclusion.
#[derive(Clone, Eq, Debug, Hash, PartialEq)]
pub struct VaultWhitelistMetaTreeNode {
    /// The user's identity.
    pub user: [u8; 32],
    /// The sibling path of this user's leaf, bottom-up.
    pub proof: Option<Vec<[u8; 32]>>,
}

impl VaultWhitelistMetaTreeNode {
    /// One node without a proof for each member, in the list's order.
    pub fn to_vec(vault_whitelist_metas: &[VaultWhitelistMeta]) -> (tree_nodes: Vec<Self>)
        ensures
            tree_nodes@.len() == vault_whitelist_metas@.len(),
            forall|i: int|
                0 <= i < tree_nodes@.len() ==> (#[trigger] tree_nodes@[i]).user
                    == vault_whitelist_metas@[i].user && tree_nodes@[i].proof is None,
    {
        let mut tree_nodes: Vec<Self> = Vec::new();
        let mut i: usize = 0;
        while i < vault_whitelist_metas.len()
            invariant
                i <= vault_whitelist_metas@.len(),
                tree_nodes@.len() == i,
                forall|j: int|
                    0 <= j < i ==> (#[trigger] tree_nodes@[j]).user == vault_whitelist_metas@[j].user
                        && tree_nodes@[j].proof is None,
            decreases vault_whitelist_metas@.len() - i,
        {
            let tree_node = Self { user: vault_whitelist_metas[i].user, proof: None };
            tree_nodes.push(tree_node);
            i += 1;
        }
        tree_nodes
    }

    /// The digest of the user's identity, the item this node puts into the
    /// tree.
    pub fn hash(&self) -> (digest: [u8; 32])
        ensures
            digest@ == sha256(seq![self.user@]),
    {
        hash_bytes(self.user.as_slice())
    }
}

} // verus!
