//! The operations of the program and their encoding: one byte that tells
//! the operation, then its arguments. A root is its 32 bytes; an amount is
//! eight bytes, least significant first; a proof that may be absent is one
//! byte, 0 or 1, and where it is 1 the number of hashes in four bytes,
//! least significant first, and the hashes.
use vstd::prelude::*;
use vstd::bytes::{
    lemma_auto_spec_u32_to_from_le_bytes, lemma_auto_spec_u64_to_from_le_bytes,
    spec_u32_from_le_bytes, spec_u32_to_le_bytes, spec_u64_to_le_bytes,
    u32_from_le_bytes, u32_to_le_bytes, u64_from_le_bytes, u64_to_le_bytes,
};
use vstd::slice::slice_subrange;
use crate::error::ProgramError;
use crate::hash::joined;
use crate::merkle_tree::digests;

verus! {

/// An operation with its arguments.
#[derive(Debug, Clone, PartialEq, Eq)]
pub enum VaultWhitelistInstruction {
    /// Create the deployment's configuration.
    InitializeConfig,
    /// Create the whitelist of a vault with a first root.
    InitializeWhitelist { meta_merkle_root: [u8; 32] },
    /// Make the whitelist the account that may mint and burn.
    SetMintBurnAdmin,
    /// Replace the root of a whitelist.
    SetMetaMerkleRoot { meta_merkle_root: [u8; 32] },
    /// Approve a user explicitly.
    AddToWhitelist,
    /// Withdraw a user's explicit approval.
    RemoveFromWhitelist,
    /// Deposit and mint shares.
    Mint { proof: Option<Vec<[u8; 32]>>, amount_in: u64, min_amount_out: u64 },
    /// Queue a withdrawal.
    EnqueueWithdrawal { proof: Option<Vec<[u8; 32]>>, amount: u64 },
    /// Redeem a withdrawal ticket.
    BurnWithdrawalTicket { proof: Option<Vec<[u8; 32]>> },
    /// Close the whitelist of a vault.
    CloseWhitelist,
}

/// The encoding of a proof that may be absent.
pub open spec fn proof_bytes(presented: Option<Vec<[u8; 32]>>) -> Seq<u8> {
    match presented {
        None => seq![0u8],
        Some(path) => seq![1u8] + spec_u32_to_le_bytes(path@.len() as u32) + joined(
            digests(path@),
        ),
    }
}

/// Whether a proof is short enough for its length to be encoded.
pub open spec fn proof_fits(presented: Option<Vec<[u8; 32]>>) -> bool {
    match presented {
        None => true,
        Some(path) => path@.len() <= u32::MAX,
    }
}

/// Number of bytes that the encoding of a proof takes in `data` from
/// position `at` on, or nothing where no encoding of a proof begins there.
pub open spec fn proof_span(data: Seq<u8>, at: int) -> Option<int> {
    if data.len() <= at {
        None
    } else if data[at] == 0 {
        Some(1)
    } else if data[at] == 1 && data.len() >= at + 5 && data.len() >= at + 5 + 32
        * spec_u32_from_le_bytes(data.subrange(at + 1, at + 5)) {
        Some(5 + 32 * spec_u32_from_le_bytes(data.subrange(at + 1, at + 5)))
    } else {
        None
    }
}

/// Whether `data` is the encoding of an operation: a known first byte, the
/// arguments that belong to it, and nothing after them.
pub open spec fn well_formed(data: Seq<u8>) -> bool {
    data.len() >= 1 && if data[0] == 0 || data[0] == 2 || data[0] == 4 || data[0] == 5 || data[0]
        == 9 {
        data.len() == 1
    } else if data[0] == 1 || data[0] == 3 {
        data.len() == 33
    } else if data[0] == 6 {
        proof_span(data, 1) matches Some(span) && data.len() == 1 + span + 16
    } else if data[0] == 7 {
        proof_span(data, 1) matches Some(span) && data.len() == 1 + span + 8
    } else if data[0] == 8 {
        proof_span(data, 1) matches Some(span) && data.len() == 1 + span
    } else {
        false
    }
}

impl VaultWhitelistInstruction {
    /// The encoding of the operation.
    pub open spec fn encoded(self) -> Seq<u8> {
        match self {
            VaultWhitelistInstruction::InitializeConfig => seq![0u8],
            VaultWhitelistInstruction::InitializeWhitelist { meta_merkle_root } => seq![1u8]
                + meta_merkle_root@,
            VaultWhitelistInstruction::SetMintBurnAdmin => seq![2u8],
            VaultWhitelistInstruction::SetMetaMerkleRoot { meta_merkle_root } => seq![3u8]
                + meta_merkle_root@,
            VaultWhitelistInstruction::AddToWhitelist => seq![4u8],
            VaultWhitelistInstruction::RemoveFromWhitelist => seq![5u8],
            VaultWhitelistInstruction::Mint { proof: presented, amount_in, min_amount_out } => seq![
                6u8,
            ] + proof_bytes(presented) + spec_u64_to_le_bytes(amount_in) + spec_u64_to_le_bytes(
                min_amount_out,
            ),
            VaultWhitelistInstruction::EnqueueWithdrawal { proof: presented, amount } => seq![7u8]
                + proof_bytes(presented) + spec_u64_to_le_bytes(amount),
            VaultWhitelistInstruction::BurnWithdrawalTicket { proof: presented } => seq![8u8]
                + proof_bytes(presented),
            VaultWhitelistInstruction::CloseWhitelist => seq![9u8],
        }
    }

    /// Whether the operation's proof, where it has one, is short enough to
    /// be encoded.
    pub open spec fn fits(self) -> bool {
        match self {
            VaultWhitelistInstruction::Mint { proof: presented, .. } => proof_fits(presented),
            VaultWhitelistInstruction::EnqueueWithdrawal { proof: presented, .. } => proof_fits(
                presented,
            ),
            VaultWhitelistInstruction::BurnWithdrawalTicket { proof: presented } => proof_fits(
                presented,
            ),
            _ => true,
        }
    }

    /// Writes the operation's encoding. A proof of more hashes than four
    /// bytes can count is refused.
    pub fn try_to_vec(&self) -> (result: Result<Vec<u8>, ProgramError>)
        ensures
            self.fits() ==> (result matches Ok(data) && data@ == self.encoded()),
            !self.fits() ==> result == Err::<Vec<u8>, ProgramError>(ProgramError::BorshIoError),
    {
        let mut data: Vec<u8> = Vec::new();
        match self {
            VaultWhitelistInstruction::InitializeConfig => {
                data.push(0);
            },
            VaultWhitelistInstruction::InitializeWhitelist { meta_merkle_root } => {
                data.push(1);
                data.extend_from_slice(meta_merkle_root.as_slice());
            },
            VaultWhitelistInstruction::SetMintBurnAdmin => {
                data.push(2);
            },
            VaultWhitelistInstruction::SetMetaMerkleRoot { meta_merkle_root } => {
                data.push(3);
                data.extend_from_slice(meta_merkle_root.as_slice());
            },
            VaultWhitelistInstruction::AddToWhitelist => {
                data.push(4);
            },
            VaultWhitelistInstruction::RemoveFromWhitelist => {
                data.push(5);
            },
            VaultWhitelistInstruction::Mint { proof: presented, amount_in, min_amount_out } => {
                data.push(6);
                if !write_proof(&mut data, presented) {
                    return Err(ProgramError::BorshIoError);
                }
                let first = u64_to_le_bytes(*amount_in);
                data.extend_from_slice(first.as_slice());
                let second = u64_to_le_bytes(*min_amount_out);
                data.extend_from_slice(second.as_slice());
            },
            VaultWhitelistInstruction::EnqueueWithdrawal { proof: presented, amount } => {
                data.push(7);
                if !write_proof(&mut data, presented) {
                    return Err(ProgramError::BorshIoError);
                }
                let bytes = u64_to_le_bytes(*amount);
                data.extend_from_slice(bytes.as_slice());
            },
            VaultWhitelistInstruction::BurnWithdrawalTicket { proof: presented } => {
                data.push(8);
                if !write_proof(&mut data, presented) {
                    return Err(ProgramError::BorshIoError);
                }
            },
            VaultWhitelistInstruction::CloseWhitelist => {
                data.push(9);
            },
        }
        assert(data@ =~= self.encoded());
        Ok(data)
    }

    /// Reads an operation from its encoding. Anything that is not exactly
    /// the encoding of one operation is refused.
    pub fn try_from_slice(data: &[u8]) -> (result: Result<Self, ProgramError>)
        ensures
            result is Ok <==> well_formed(data@),
            result matches Ok(instruction) ==> instruction.encoded() == data@ && instruction.fits(),
            result matches Err(e) ==> e == ProgramError::BorshIoError,
    {
        if data.len() < 1 {
            return Err(ProgramError::BorshIoError);
        }
        let tag = data[0];
        if tag == 0 || tag == 2 || tag == 4 || tag == 5 || tag == 9 {
            if data.len() != 1 {
                return Err(ProgramError::BorshIoError);
            }
            let instruction = if tag == 0 {
                VaultWhitelistInstruction::InitializeConfig
            } else if tag == 2 {
                VaultWhitelistInstruction::SetMintBurnAdmin
            } else if tag == 4 {
                VaultWhitelistInstruction::AddToWhitelist
            } else if tag == 5 {
                VaultWhitelistInstruction::RemoveFromWhitelist
            } else {
                VaultWhitelistInstruction::CloseWhitelist
            };
            assert(instruction.encoded() =~= data@);
            Ok(instruction)
        } else if tag == 1 || tag == 3 {
            if data.len() != 33 {
                return Err(ProgramError::BorshIoError);
            }
            let meta_merkle_root = read_hash(data, 1);
            let instruction = if tag == 1 {
                VaultWhitelistInstruction::InitializeWhitelist { meta_merkle_root }
            } else {
                VaultWhitelistInstruction::SetMetaMerkleRoot { meta_merkle_root }
            };
            assert(instruction.encoded() =~= data@);
            Ok(instruction)
        } else if tag == 6 || tag == 7 || tag == 8 {
            let (presented, next) = match read_proof(data, 1) {
                None => {
                    return Err(ProgramError::BorshIoError);
                },
                Some(found) => found,
            };
            let rest = data.len() - next;
            proof {
                lemma_auto_spec_u64_to_from_le_bytes();
            }
            if tag == 6 {
                if rest != 16 {
                    return Err(ProgramError::BorshIoError);
                }
                let amount_in = u64_from_le_bytes(slice_subrange(data, next, next + 8));
                let min_amount_out = u64_from_le_bytes(slice_subrange(data, next + 8, next + 16));
                let instruction = VaultWhitelistInstruction::Mint {
                    proof: presented,
                    amount_in,
                    min_amount_out,
                };
                proof {
                    assert(spec_u64_to_le_bytes(amount_in) == data@.subrange(
                        next as int,
                        next + 8,
                    ));
                    assert(spec_u64_to_le_bytes(min_amount_out) == data@.subrange(
                        next + 8,
                        next + 16,
                    ));
                    assert(instruction.encoded() =~= data@);
                }
                Ok(instruction)
            } else if tag == 7 {
                if rest != 8 {
                    return Err(ProgramError::BorshIoError);
                }
                let amount = u64_from_le_bytes(slice_subrange(data, next, next + 8));
                let instruction = VaultWhitelistInstruction::EnqueueWithdrawal {
                    proof: presented,
                    amount,
                };
                proof {
                    assert(spec_u64_to_le_bytes(amount) == data@.subrange(next as int, next + 8));
                    assert(instruction.encoded() =~= data@);
                }
                Ok(instruction)
            } else {
                if rest != 0 {
                    return Err(ProgramError::BorshIoError);
                }
                let instruction = VaultWhitelistInstruction::BurnWithdrawalTicket {
                    proof: presented,
                };
                assert(instruction.encoded() =~= data@);
                Ok(instruction)
            }
        } else {
            Err(ProgramError::BorshIoError)
        }
    }
}

/// Appends the encoding of a proof that may be absent, and tells whether
/// the proof was short enough; where it was not, nothing is appended.
pub fn write_proof(data: &mut Vec<u8>, presented: &Option<Vec<[u8; 32]>>) -> (written: bool)
    ensures
        written == proof_fits(*presented),
        written ==> final(data)@ == old(data)@ + proof_bytes(*presented),
        !written ==> final(data)@ == old(data)@,
{
    match presented {
        None => {
            data.push(0);
            assert(data@ =~= old(data)@ + seq![0u8]);
            true
        },
        Some(path) => {
            if path.len() > u32::MAX as usize {
                return false;
            }
            data.push(1);
            let count = u32_to_le_bytes(path.len() as u32);
            data.extend_from_slice(count.as_slice());
            let ghost head = data@;
            assert(head =~= old(data)@ + seq![1u8] + spec_u32_to_le_bytes(path@.len() as u32));
            let mut i: usize = 0;
            assert(joined(digests(path@.take(0))) =~= Seq::<u8>::empty());
            while i < path.len()
                invariant
                    i <= path@.len(),
                    data@ == head + joined(digests(path@.take(i as int))),
                decreases path@.len() - i,
            {
                proof {
                    let before = digests(path@.take(i as int));
                    let after = digests(path@.take(i + 1));
                    assert(after.drop_last() =~= before);
                    assert(after.last() == path@[i as int]@);
                }
                data.extend_from_slice(path[i].as_slice());
                i += 1;
            }
            proof {
                assert(path@.take(path@.len() as int) =~= path@);
                assert(data@ =~= old(data)@ + proof_bytes(*presented));
            }
            true
        },
    }
}

/// Reads the 32 bytes of a hash from `data` at position `at`.
pub fn read_hash(data: &[u8], at: usize) -> (hash: [u8; 32])
    requires
        at + 32 <= data@.len(),
    ensures
        hash@ == data@.subrange(at as int, at + 32),
{
    let mut hash = [0u8; 32];
    let mut i: usize = 0;
    let len = data.len();
    while i < 32
        invariant
            i <= 32,
            at + 32 <= data@.len(),
            data@.len() == len,
            forall|j: int| 0 <= j < i ==> hash@[j] == data@[at + j],
        decreases 32 - i,
    {
        hash[i] = data[at + i];
        i += 1;
    }
    assert(hash@ =~= data@.subrange(at as int, at + 32));
    hash
}

/// Reads a proof that may be absent from `data` at position `at`, and
/// tells where the bytes after it begin.
pub fn read_proof(data: &[u8], at: usize) -> (result: Option<(Option<Vec<[u8; 32]>>, usize)>)
    requires
        at <= data@.len(),
    ensures
        match result {
            None => proof_span(data@, at as int) is None,
            Some((presented, next)) => {
                &&& proof_span(data@, at as int) == Some(next - at)
                &&& at < next <= data@.len()
                &&& proof_bytes(presented) == data@.subrange(at as int, next as int)
                &&& proof_fits(presented)
            },
        },
{
    if data.len() <= at {
        return None;
    }
    if data[at] == 0 {
        assert(data@.subrange(at as int, at + 1) =~= seq![0u8]);
        return Some((None, at + 1));
    }
    if data[at] != 1 || data.len() - at < 5 {
        return None;
    }
    let count = u32_from_le_bytes(slice_subrange(data, at + 1, at + 5));
    let room = (data.len() - at - 5) / 32;
    if count as u64 > room as u64 {
        return None;
    }
    let count = count as usize;
    let start = at + 5;
    let mut path: Vec<[u8; 32]> = Vec::new();
    let mut i: usize = 0;
    let len = data.len();
    assert(data@.subrange(start as int, start as int) =~= Seq::<u8>::empty());
    while i < count
        invariant
            i <= count,
            start + 32 * count <= data@.len(),
            data@.len() == len,
            path@.len() == i,
            joined(digests(path@)) == data@.subrange(start as int, start + 32 * i),
        decreases count - i,
    {
        let hash = read_hash(data, start + 32 * i);
        proof {
            let before = digests(path@);
            let after = digests(path@.push(hash));
            assert(after.drop_last() =~= before);
            assert(after.last() == hash@);
            assert(data@.subrange(start as int, start + 32 * (i + 1)) =~= data@.subrange(
                start as int,
                start + 32 * i,
            ) + data@.subrange(start + 32 * i, start + 32 * i + 32));
        }
        path.push(hash);
        i += 1;
    }
    let next = start + 32 * count;
    proof {
        lemma_auto_spec_u32_to_from_le_bytes();
        let length = data@.subrange(at + 1, at + 5);
        assert(spec_u32_to_le_bytes(count as u32) == length);
        assert(data@.subrange(at as int, next as int) =~= seq![1u8] + length + data@.subrange(
            start as int,
            next as int,
        ));
    }
    Some((Some(path), next))
}

/// The bytes of a list of hashes are 32 for each hash.
pub proof fn lemma_joined_len(hashes: Seq<[u8; 32]>)
    ensures
        joined(digests(hashes)).len() == 32 * hashes.len(),
    decreases hashes.len(),
{
    if hashes.len() > 0 {
        lemma_joined_len(hashes.drop_last());
        assert(digests(hashes).drop_last() =~= digests(hashes.drop_last()));
    }
}

/// Where the encoding of a proof stands in `data` at `at`, a proof is
/// found there, of the encoding's length.
pub proof fn lemma_proof_span(presented: Option<Vec<[u8; 32]>>, data: Seq<u8>, at: int)
    requires
        proof_fits(presented),
        0 <= at,
        data.len() >= at + proof_bytes(presented).len(),
        data.subrange(at, at + proof_bytes(presented).len()) == proof_bytes(presented),
    ensures
        proof_span(data, at) == Some(proof_bytes(presented).len() as int),
{
    let bytes = proof_bytes(presented);
    lemma_auto_spec_u32_to_from_le_bytes();
    match presented {
        None => {
            assert(data[at] == bytes[0]);
        },
        Some(path) => {
            lemma_joined_len(path@);
            let count = spec_u32_to_le_bytes(path@.len() as u32);
            assert(bytes.len() == 5 + 32 * path@.len());
            assert(data[at] == bytes[0]);
            assert(data.subrange(at + 1, at + 5) =~= bytes.subrange(1, 5));
            assert(bytes.subrange(1, 5) =~= count);
        },
    }
}

/// Every operation whose proof is short enough has an encoding that reads
/// back as an operation.
pub proof fn lemma_encoding_well_formed(instruction: VaultWhitelistInstruction)
    requires
        instruction.fits(),
    ensures
        well_formed(instruction.encoded()),
{
    let data = instruction.encoded();
    lemma_auto_spec_u64_to_from_le_bytes();
    match instruction {
        VaultWhitelistInstruction::Mint { proof: presented, amount_in, min_amount_out } => {
            let bytes = proof_bytes(presented);
            assert(data.subrange(1, 1 + bytes.len() as int) =~= bytes);
            lemma_proof_span(presented, data, 1);
        },
        VaultWhitelistInstruction::EnqueueWithdrawal { proof: presented, amount } => {
            let bytes = proof_bytes(presented);
            assert(data.subrange(1, 1 + bytes.len() as int) =~= bytes);
            lemma_proof_span(presented, data, 1);
        },
        VaultWhitelistInstruction::BurnWithdrawalTicket { proof: presented } => {
            let bytes = proof_bytes(presented);
            assert(data.subrange(1, 1 + bytes.len() as int) =~= bytes);
            lemma_proof_span(presented, data, 1);
        },
        _ => {},
    }
}

} // verus!
