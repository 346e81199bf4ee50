//! The tree over a member list, with every member's proof.
use vstd::prelude::*;
use crate::error::MerkleTreeError;
use crate::hash::{hash_eq, leaf_hash, sha256};
use crate::merkle_tree::{digests, tree_path, tree_root, MerkleTree};
use crate::utils::get_proof;
use crate::vault_whitelist_meta::{member_ids, VaultWhitelistMeta};
use crate::vault_whitelist_meta_tree_node::VaultWhitelistMetaTreeNode;

verus! {

/// The leaves of the tree over the members `ids`: one commitment each, in
/// the list's order.
pub open spec fn member_leaves(ids: Seq<Seq<u8>>) -> Seq<Seq<u8>> {
    Seq::new(ids.len(), |i: int| leaf_hash(ids[i]))
}

/// The root that commits to the ordered member list `ids`.
pub open spec fn merkle_root(ids: Seq<Seq<u8>>) -> Seq<u8>
    recommends
        ids.len() > 0,
{
    tree_root(member_leaves(ids), true)
}

/// The proof of inclusion of member `index` of `ids`.
pub open spec fn merkle_proof(ids: Seq<Seq<u8>>, index: int) -> Seq<Seq<u8>> {
    tree_path(member_leaves(ids), index, true)
}

/// Whether `index` is the first place where `id` stands in `ids`.
pub open spec fn is_first_index(ids: Seq<Seq<u8>>, id: Seq<u8>, index: int) -> bool {
    &&& 0 <= index < ids.len()
    &&& ids[index] == id
    &&& forall|j: int| 0 <= j < index ==> ids[j] != id
}

/// The tree over a member list: the root to store, and for each member the
/// proof to present.
#[derive(Clone, Eq, Debug, Hash, PartialEq)]
pub struct GeneratedMerkleTree {
    /// The root of the tree.
    pub merkle_root: [u8; 32],
    /// The members in the list's order, each with its proof.
    pub tree_nodes: Vec<VaultWhitelistMetaTreeNode>,
    /// Number of members.
    pub max_num_nodes: u64,
}

impl GeneratedMerkleTree {
    /// Whether this value is the tree over the ordered member list `ids`:
    /// its root, its members and each member's proof.
    pub open spec fn commits_to(&self, ids: Seq<Seq<u8>>) -> bool {
        &&& self.merkle_root@ == merkle_root(ids)
        &&& self.max_num_nodes == ids.len()
        &&& self.tree_nodes@.len() == ids.len()
        &&& forall|i: int|
            0 <= i < ids.len() ==> {
                &&& (#[trigger] self.tree_nodes@[i]).user@ == ids[i]
                &&& self.tree_nodes@[i].proof matches Some(proof)
                &&& digests(proof@) == merkle_proof(ids, i)
            }
    }

    /// The digests that stand for the members in the tree.
    fn hashed_nodes(tree_nodes: &Vec<VaultWhitelistMetaTreeNode>) -> (hashed: Vec<Vec<u8>>)
        ensures
            hashed@.len() == tree_nodes@.len(),
            forall|i: int|
                0 <= i < hashed@.len() ==> (#[trigger] hashed@[i])@ == sha256(
                    seq![tree_nodes@[i].user@],
                ),
    {
        let mut hashed: Vec<Vec<u8>> = Vec::new();
        let mut i: usize = 0;
        while i < tree_nodes.len()
            invariant
                i <= tree_nodes@.len(),
                hashed@.len() == i,
                forall|j: int|
                    0 <= j < i ==> (#[trigger] hashed@[j])@ == sha256(seq![tree_nodes@[j].user@]),
            decreases tree_nodes@.len() - i,
        {
            let digest = tree_nodes[i].hash();
            hashed.push(vstd::slice::slice_to_vec(digest.as_slice()));
            i += 1;
        }
        hashed
    }

    /// Builds the tree over the members in the order given, with
    /// sorted-pair hashing, and a proof for every member. An empty list has
    /// no root and is refused.
    pub fn new(vault_whitelist_metas: &[VaultWhitelistMeta]) -> (result: Result<
        Self,
        MerkleTreeError,
    >)
        ensures
            vault_whitelist_metas@.len() == 0 ==> result matches Err(
                MerkleTreeError::MerkleRootError,
            ),
            vault_whitelist_metas@.len() > 0 ==> (result matches Ok(tree) && tree.commits_to(
                member_ids(vault_whitelist_metas@),
            )),
    {
        let ghost ids = member_ids(vault_whitelist_metas@);
        let mut tree_nodes = VaultWhitelistMetaTreeNode::to_vec(vault_whitelist_metas);
        let hashed_nodes = Self::hashed_nodes(&tree_nodes);
        let merkle_tree = MerkleTree::new(hashed_nodes.as_slice(), true);
        assert(merkle_tree.leaves() =~= member_leaves(ids));
        let root = match merkle_tree.get_root() {
            Some(root) => *root,
            None => {
                return Err(MerkleTreeError::MerkleRootError);
            },
        };
        let count = tree_nodes.len();
        let max_num_nodes = count as u64;
        let mut i: usize = 0;
        while i < count
            invariant
                i <= count,
                count == ids.len(),
                tree_nodes@.len() == count,
                ids == member_ids(vault_whitelist_metas@),
                merkle_tree.leaves() == member_leaves(ids),
                merkle_tree.sorted(),
                forall|j: int| 0 <= j < count ==> (#[trigger] tree_nodes@[j]).user@ == ids[j],
                forall|j: int|
                    0 <= j < i ==> ((#[trigger] tree_nodes@[j]).proof matches Some(proof)
                        && digests(proof@) == merkle_proof(ids, j)),
            decreases count - i,
        {
            let proof = match get_proof(&merkle_tree, i) {
                Ok(proof) => proof,
                Err(e) => {
                    return Err(e);
                },
            };
            let user = tree_nodes[i].user;
            tree_nodes.set(i, VaultWhitelistMetaTreeNode { user, proof: Some(proof) });
            i += 1;
        }
        Ok(Self { max_num_nodes, merkle_root: root, tree_nodes })
    }

    /// The proof of inclusion of `depositor`, taken at the first place where
    /// it stands in the list.
    pub fn get_proof(vault_whitelist_metas: &[VaultWhitelistMeta], depositor: &[u8; 32]) -> (result:
        Result<Vec<[u8; 32]>, MerkleTreeError>)
        ensures
            !member_ids(vault_whitelist_metas@).contains(depositor@) ==> result matches Err(
                MerkleTreeError::NotFound,
            ),
            forall|index: int|
                is_first_index(member_ids(vault_whitelist_metas@), depositor@, index)
                    ==> (result matches Ok(proof) && digests(proof@) == merkle_proof(
                    member_ids(vault_whitelist_metas@),
                    index,
                )),
    {
        let ghost ids = member_ids(vault_whitelist_metas@);
        let index = match find_by_identity(vault_whitelist_metas, depositor) {
            Ok(index) => index,
            Err(e) => {
                return Err(e);
            },
        };
        let tree_nodes = VaultWhitelistMetaTreeNode::to_vec(vault_whitelist_metas);
        let hashed_nodes = Self::hashed_nodes(&tree_nodes);
        let merkle_tree = MerkleTree::new(hashed_nodes.as_slice(), true);
        assert(merkle_tree.leaves() =~= member_leaves(ids));
        get_proof(&merkle_tree, index)
    }
}

/// The first place where `identity` stands in the member list, by a scan
/// from the front.
pub fn find_by_identity(vault_whitelist_metas: &[VaultWhitelistMeta], identity: &[u8; 32]) -> (result:
    Result<usize, MerkleTreeError>)
    ensures
        match result {
            Ok(index) => is_first_index(
                member_ids(vault_whitelist_metas@),
                identity@,
                index as int,
            ),
            Err(e) => e == MerkleTreeError::NotFound && !member_ids(
                vault_whitelist_metas@,
            ).contains(identity@),
        },
{
    let ghost ids = member_ids(vault_whitelist_metas@);
    let mut index: usize = 0;
    while index < vault_whitelist_metas.len()
        invariant
            index <= vault_whitelist_metas@.len(),
            ids == member_ids(vault_whitelist_metas@),
            forall|j: int| 0 <= j < index ==> ids[j] != identity@,
        decreases vault_whitelist_metas@.len() - index,
    {
        if hash_eq(&vault_whitelist_metas[index].user, identity) {
            return Ok(index);
        }
        index += 1;
    }
    Err(MerkleTreeError::NotFound)
}

} // verus!
