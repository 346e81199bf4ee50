//! The tag that tells the persisted records apart.
use vstd::prelude::*;

verus! {

/// The kinds of record this program persists. The first byte of a record's
/// storage holds the kind's number.
#[derive(Debug, Clone, Copy, PartialEq, Eq, Structural)]
pub enum VaultWhitelistDiscriminator {
    Config,
    Whitelist,
    WhitelistUser,
}

impl VaultWhitelistDiscriminator {
    /// The kind's number: 0, 1 and 2 in the order of the variants.
    pub open spec fn tag(self) -> u8 {
        match self {
            VaultWhitelistDiscriminator::Config => 0,
            VaultWhitelistDiscriminator::Whitelist => 1,
            VaultWhitelistDiscriminator::WhitelistUser => 2,
        }
    }

    /// The kind's number.
    pub fn value(self) -> (tag: u8)
        ensures
            tag == self.tag(),
    {
        match self {
            VaultWhitelistDiscriminator::Config => 0,
            VaultWhitelistDiscriminator::Whitelist => 1,
            VaultWhitelistDiscriminator::WhitelistUser => 2,
        }
    }

    /// The kind with the number `tag`, where there is one.
    pub fn from_value(tag: u8) -> (kind: Option<Self>)
        ensures
            kind matches Some(k) ==> k.tag() == tag,
            kind is None <==> tag > 2,
    {
        match tag {
            0 => Some(VaultWhitelistDiscriminator::Config),
            1 => Some(VaultWhitelistDiscriminator::Whitelist),
            2 => Some(VaultWhitelistDiscriminator::WhitelistUser),
            _ => None,
        }
    }
}

} // verus!
