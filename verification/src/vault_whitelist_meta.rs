//! One approved user of a vault.
use vstd::prelude::*;

verus! {

/// A user to be approved: the 32 bytes of the user's identity.
#[derive(Clone, Debug, PartialEq, Eq)]
pub struct VaultWhitelistMeta {
    /// The user's identity.
    pub user: [u8; 32],
}

impl VaultWhitelistMeta {
    /// A member record for `user`.
    pub fn new(user: [u8; 32]) -> (meta: Self)
        ensures
            meta.user == user,
    {
        Self { user }
    }
}

/// The identities of a member list, in its order.
pub open spec fn member_ids(metas: Seq<VaultWhitelistMeta>) -> Seq<Seq<u8>> {
    Seq::new(metas.len(), |i: int| metas[i].user@)
}

} // verus!
