//! A member list as it is read from a file.
use vstd::prelude::*;
use crate::vault_whitelist_meta::VaultWhitelistMeta;

verus! {

/// An ordered list of approved users.
#[derive(Clone, Debug)]
pub struct VaultWhitelistMetaCollection {
    /// The members, in the order that fixes the tree.
    pub vault_whitelist_metas: Vec<VaultWhitelistMeta>,
}

} // verus!
