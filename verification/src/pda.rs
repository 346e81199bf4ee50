//! Canonical addresses: the address that a program derives from a list of
//! seeds.
use vstd::prelude::*;

verus! {

/// The address and bump seed that `Pubkey::try_find_program_address` of
/// `solana_program` derives from `seeds` for the program `program_id`, or
/// nothing where it derives none.
pub uninterp spec fn derived_address(seeds: Seq<Seq<u8>>, program_id: Seq<u8>) -> Option<
    (Seq<u8>, u8),
>;

/// The byte strings of a list of seeds.
pub open spec fn seeds_view(seeds: Seq<Vec<u8>>) -> Seq<Seq<u8>> {
    Seq::new(seeds.len(), |i: int| seeds[i]@)
}

/// Calls `Pubkey::try_find_program_address`: the search, from bump seed 255
/// downwards, for an address off the curve that is the SHA-256 digest of
/// the seeds, the bump seed, the program's address and a fixed marker. The
/// result is a function of the seeds and the program's address; it is
/// nothing where no bump seed gives an address or a seed is too long.
#[verifier::external_body]
pub(crate) fn try_find_program_address(seeds: &Vec<Vec<u8>>, program_id: &[u8; 32]) -> (found:
    Option<([u8; 32], u8)>)
    ensures
        match found {
            Some((address, bump)) => derived_address(seeds_view(seeds@), program_id@) == Some(
                (address@, bump),
            ),
            None => derived_address(seeds_view(seeds@), program_id@) is None,
        },
{
    let slices: Vec<&[u8]> = seeds.iter().map(|seed| seed.as_slice()).collect();
    let program = solana_program::pubkey::Pubkey::new_from_array(*program_id);
    solana_program::pubkey::Pubkey::try_find_program_address(&slices, &program).map(
        |(address, bump)| (address.to_bytes(), bump),
    )
}

} // verus!
