//! Merkle-committed allowlists for vault operations: tree construction and
//! proofs, proof checking, the persisted registry records and the checks
//! that stand before every privileged operation.
pub mod error;
pub mod hash;
pub mod merkle_tree;
pub mod utils;
pub mod verify;
pub mod vault_whitelist_meta;
pub mod vault_whitelist_meta_collection;
pub mod vault_whitelist_meta_tree_node;
pub mod generated_merkle_tree;
pub mod generated_merkle_tree_collection;
pub mod tree_node;
pub mod soundness;
pub mod account;
pub mod pda;
pub mod discriminator;
pub mod record;
pub mod config;
pub mod whitelist;
pub mod whitelist_user;
pub mod vault;
pub mod instruction;
pub mod gate;
pub mod initialize_config;
pub mod initialize_whitelist;
pub mod set_meta_merkle_root;
pub mod set_mint_burn_admin;
pub mod add_to_whitelist;
pub mod remove_from_whitelist;
pub mod mint;
pub mod enqueue_withdrawal;
pub mod burn_withdrawal_ticket;
pub mod close_whitelist;
pub mod processor;
pub mod lifecycle;
