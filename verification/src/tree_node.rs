//! The summary of a generated tree: how many members it holds.
use vstd::prelude::*;
use vstd::bytes::{spec_u64_to_le_bytes, u64_to_le_bytes};
use crate::generated_merkle_tree::GeneratedMerkleTree;
use crate::hash::{hashv, parts_view, sha256};

verus! {

/// A node that stands for a whole generated tree.
#[derive(Debug, Clone, Eq, Hash, PartialEq)]
pub struct TreeNode {
    /// The proof of inclusion of this node, where it has one.
    pub proof: Option<Vec<[u8; 32]>>,
    /// Number of members of the tree.
    pub max_num_nodes: u64,
}

impl TreeNode {
    /// A node for a tree of `max_num_nodes` members, without a proof.
    pub fn new(max_num_nodes: u64) -> (node: Self)
        ensures
            node.proof is None,
            node.max_num_nodes == max_num_nodes,
    {
        Self { proof: None, max_num_nodes }
    }

    /// The digest of the member count in its eight little-endian bytes.
    pub fn hash(&self) -> (digest: [u8; 32])
        ensures
            digest@ == sha256(seq![spec_u64_to_le_bytes(self.max_num_nodes)]),
    {
        let bytes = u64_to_le_bytes(self.max_num_nodes);
        let parts: [&[u8]; 1] = [bytes.as_slice()];
        let digest = hashv(parts.as_slice());
        proof {
            assert(parts@[0]@ == bytes@);
            assert(parts_view(parts@) =~= seq![spec_u64_to_le_bytes(self.max_num_nodes)]);
        }
        digest
    }
}

impl From<GeneratedMerkleTree> for TreeNode {
    fn from(generated_merkle_tree: GeneratedMerkleTree) -> (ret: Self) {
        Self { max_num_nodes: generated_merkle_tree.max_num_nodes, proof: None }
    }
}

impl vstd::std_specs::convert::FromSpecImpl<GeneratedMerkleTree> for TreeNode {
    open spec fn obeys_from_spec() -> bool {
        true
    }

    open spec fn from_spec(generated_merkle_tree: GeneratedMerkleTree) -> Self {
        TreeNode { max_num_nodes: generated_merkle_tree.max_num_nodes, proof: None }
    }
}

} // verus!
