//! The checks that stand before every privileged operation on a vault, and
//! the call to the vault program that an approved operation is turned
//! into.
use vstd::prelude::*;
use crate::account::{accounts_view, load_signer, load_signer_spec, Account, AccountView};
use crate::config::Config;
use crate::error::{ProgramError, VaultWhitelistError};
use crate::hash::{hash_identity, leaf_hash};
use crate::merkle_tree::digests;
use crate::pda::{derived_address, seeds_view};
use crate::record::{first_field, holds_record, second_field};
use crate::verify::{verify_slice, verify_spec};
use crate::whitelist::{Whitelist, WHITELIST_DISCRIMINATOR};
use crate::whitelist_user::{WhitelistUser, WHITELIST_USER_DISCRIMINATOR};

verus! {

/// What a user presents to show that the whitelist approves of it.
pub enum Evidence<'a> {
    /// A sibling path to the whitelist's root.
    Proof(&'a Vec<[u8; 32]>),
    /// The account of the user's own record.
    Record(&'a Account),
}

/// The mathematical content of an evidence.
pub enum EvidenceView {
    Proof(Seq<Seq<u8>>),
    Record(AccountView),
}

impl<'a> View for Evidence<'a> {
    type V = EvidenceView;

    open spec fn view(&self) -> EvidenceView {
        match *self {
            Evidence::Proof(proof) => EvidenceView::Proof(digests(proof@)),
            Evidence::Record(record) => EvidenceView::Record(record@),
        }
    }
}

/// The operation that the vault program is asked to perform.
#[derive(Debug, Clone, Copy, PartialEq, Eq, Structural)]
pub enum VaultInstruction {
    /// Deposit `amount_in`, for at least `min_amount_out` shares.
    MintTo { amount_in: u64, min_amount_out: u64 },
    /// Queue the withdrawal of `amount` shares.
    EnqueueWithdrawal { amount: u64 },
    /// Redeem a withdrawal ticket that has cooled down.
    BurnWithdrawalTicket,
    /// Name the account that may mint and burn.
    SetMintBurnAdmin,
}

/// A call to the vault program: what to do, on which accounts, and the
/// seeds under which the whitelist signs, where it signs.
#[derive(Debug, Clone, PartialEq, Eq)]
pub struct VaultCall {
    /// The vault program.
    pub program_id: [u8; 32],
    /// The operation.
    pub instruction: VaultInstruction,
    /// The addresses the operation names, in the order in which the vault
    /// program takes them.
    pub accounts: Vec<[u8; 32]>,
    /// The seeds of the whitelist's address with its bump seed, or nothing
    /// where the call goes out unsigned.
    pub signer_seeds: Vec<Vec<u8>>,
}

/// The mathematical content of a call.
pub struct VaultCallView {
    pub program_id: Seq<u8>,
    pub instruction: VaultInstruction,
    pub accounts: Seq<Seq<u8>>,
    pub signer_seeds: Seq<Seq<u8>>,
}

impl View for VaultCall {
    type V = VaultCallView;

    open spec fn view(&self) -> VaultCallView {
        VaultCallView {
            program_id: self.program_id@,
            instruction: self.instruction,
            accounts: digests(self.accounts@),
            signer_seeds: seeds_view(self.signer_seeds@),
        }
    }
}

/// The error with which the ledger reports an error of this program.
pub open spec fn custom(e: VaultWhitelistError) -> ProgramError {
    ProgramError::Custom(e.code())
}

/// Whether the evidence shows that the whitelist at `whitelist` approves of
/// `user`: a proof must lead from the user's leaf to the stored root; a
/// record must be the user's record under this whitelist and say so.
pub open spec fn membership_spec(
    program_id: Seq<u8>,
    whitelist: AccountView,
    user: Seq<u8>,
    evidence: EvidenceView,
) -> Result<(), ProgramError> {
    match evidence {
        EvidenceView::Proof(proof) => if verify_spec(
            proof,
            second_field(whitelist.data),
            leaf_hash(user),
        ) {
            Ok(())
        } else {
            Err(custom(VaultWhitelistError::InvalidProof))
        },
        EvidenceView::Record(record) => if WhitelistUser::load_spec(
            program_id,
            record,
            whitelist.key,
            user,
            false,
        ) is Err {
            WhitelistUser::load_spec(program_id, record, whitelist.key, user, false)
        } else if !holds_record(WHITELIST_USER_DISCRIMINATOR, record.data) {
            Err(ProgramError::InvalidAccountData)
        } else if first_field(record.data) != whitelist.key {
            Err(custom(VaultWhitelistError::InvalidWhitelist))
        } else if second_field(record.data) != user {
            Err(custom(VaultWhitelistError::InvalidWhitelistUser))
        } else {
            Ok(())
        },
    }
}

/// The seeds under which the whitelist of `vault` signs: the seeds of its
/// address, then its bump seed.
pub open spec fn signer_seeds_spec(vault: Seq<u8>, bump: u8) -> Seq<Seq<u8>> {
    Whitelist::seeds_spec(vault).push(seq![bump])
}

/// The decision on a privileged operation of `user` on the vault at
/// `vault`: the configuration and the whitelist must be this program's
/// records at their addresses, the whitelist writable and the vault's own;
/// the user must have signed, writably; and the evidence must show the
/// user's approval. The result is the seeds under which the whitelist
/// signs the forwarded call.
pub open spec fn authorize_spec(
    program_id: Seq<u8>,
    config: AccountView,
    whitelist: AccountView,
    vault: Seq<u8>,
    user: AccountView,
    evidence: EvidenceView,
) -> Result<Seq<Seq<u8>>, ProgramError> {
    if Config::load_spec(program_id, config, false) is Err {
        Err(Config::load_spec(program_id, config, false)->Err_0)
    } else if Whitelist::load_spec(program_id, whitelist, vault, true) is Err {
        Err(Whitelist::load_spec(program_id, whitelist, vault, true)->Err_0)
    } else if !holds_record(WHITELIST_DISCRIMINATOR, whitelist.data) {
        Err(ProgramError::InvalidAccountData)
    } else if first_field(whitelist.data) != vault {
        Err(custom(VaultWhitelistError::InvalidVault))
    } else if load_signer_spec(user, true) is Err {
        Err(load_signer_spec(user, true)->Err_0)
    } else if membership_spec(program_id, whitelist, user.key, evidence) is Err {
        Err(membership_spec(program_id, whitelist, user.key, evidence)->Err_0)
    } else {
        match derived_address(Whitelist::seeds_spec(vault), program_id) {
            None => Err(ProgramError::InvalidSeeds),
            Some((_, bump)) => Ok(signer_seeds_spec(vault, bump)),
        }
    }
}

/// Checks the evidence of a user's approval against a whitelist that has
/// been loaded.
pub fn check_membership(
    program_id: &[u8; 32],
    whitelist_info: &Account,
    whitelist: &Whitelist,
    user: &[u8; 32],
    evidence: &Evidence,
) -> (result: Result<(), ProgramError>)
    requires
        whitelist.stored_in(whitelist_info.data@),
    ensures
        result == membership_spec(program_id@, whitelist_info@, user@, evidence@),
{
    match evidence {
        Evidence::Proof(proof) => {
            let leaf = hash_identity(user);
            if verify_slice(proof.as_slice(), &whitelist.meta_merkle_root, &leaf) {
                Ok(())
            } else {
                Err(ProgramError::from(VaultWhitelistError::InvalidProof))
            }
        },
        Evidence::Record(record) => {
            match WhitelistUser::load(program_id, record, &whitelist_info.key, user, false) {
                Err(e) => {
                    return Err(e);
                },
                Ok(()) => {},
            }
            let whitelist_user = match WhitelistUser::try_from_slice_unchecked(
                record.data.as_slice(),
            ) {
                Err(e) => {
                    return Err(e);
                },
                Ok(whitelist_user) => whitelist_user,
            };
            match whitelist_user.check_whitelist(&whitelist_info.key) {
                Err(e) => {
                    return Err(ProgramError::from(e));
                },
                Ok(()) => {},
            }
            match whitelist_user.check_user(user) {
                Err(e) => Err(ProgramError::from(e)),
                Ok(()) => Ok(()),
            }
        },
    }
}

/// Decides on a privileged operation of `user` on the vault at `vault`,
/// and hands back the seeds under which the whitelist signs the call.
pub fn authorize(
    program_id: &[u8; 32],
    config_info: &Account,
    whitelist_info: &Account,
    vault: &[u8; 32],
    user: &Account,
    evidence: &Evidence,
) -> (result: Result<Vec<Vec<u8>>, ProgramError>)
    ensures
        match result {
            Ok(seeds) => authorize_spec(
                program_id@,
                config_info@,
                whitelist_info@,
                vault@,
                user@,
                evidence@,
            ) == Ok::<Seq<Seq<u8>>, ProgramError>(seeds_view(seeds@)),
            Err(e) => authorize_spec(
                program_id@,
                config_info@,
                whitelist_info@,
                vault@,
                user@,
                evidence@,
            ) == Err::<Seq<Seq<u8>>, ProgramError>(e),
        },
{
    match Config::load(program_id, config_info, false) {
        Err(e) => {
            return Err(e);
        },
        Ok(()) => {},
    }
    match Whitelist::load(program_id, whitelist_info, vault, true) {
        Err(e) => {
            return Err(e);
        },
        Ok(()) => {},
    }
    let whitelist = match Whitelist::try_from_slice_unchecked(whitelist_info.data.as_slice()) {
        Err(e) => {
            return Err(e);
        },
        Ok(whitelist) => whitelist,
    };
    match whitelist.check_vault(vault) {
        Err(e) => {
            return Err(ProgramError::from(e));
        },
        Ok(()) => {},
    }
    match load_signer(user, true) {
        Err(e) => {
            return Err(e);
        },
        Ok(()) => {},
    }
    match check_membership(program_id, whitelist_info, &whitelist, &user.key, evidence) {
        Err(e) => {
            return Err(e);
        },
        Ok(()) => {},
    }
    match Whitelist::find_program_address(program_id, vault) {
        None => Err(ProgramError::InvalidSeeds),
        Some((_, bump, seeds)) => {
            let mut seeds = seeds;
            seeds.push(vec![bump]);
            proof {
                let last = seeds@[seeds@.len() - 1];
                assert(last@ =~= seq![bump]);
                assert(seeds_view(seeds@) =~= signer_seeds_spec(vault@, bump));
            }
            Ok(seeds)
        },
    }
}

/// The addresses of the accounts at `indexes`, in that order.
pub open spec fn keys_at(accounts: Seq<AccountView>, indexes: Seq<usize>) -> Seq<Seq<u8>> {
    Seq::new(indexes.len(), |i: int| accounts[indexes[i] as int].key)
}

/// The evidence that comes with an operation: the proof where one was
/// sent, else the account that follows the whitelist's.
pub open spec fn evidence_spec(
    accounts: Seq<AccountView>,
    presented: Option<Seq<Seq<u8>>>,
    whitelist: int,
) -> EvidenceView {
    match presented {
        Some(path) => EvidenceView::Proof(path),
        None => EvidenceView::Record(accounts[whitelist + 1]),
    }
}

/// The proof in the form in which the contracts speak of it.
pub open spec fn proof_view(presented: Option<Vec<[u8; 32]>>) -> Option<Seq<Seq<u8>>> {
    match presented {
        Some(path) => Some(digests(path@)),
        None => None,
    }
}

/// The outcome of a gated operation. With a proof the operation names
/// `count` accounts, without one it names one more, the user's record,
/// right after the whitelist. Where the checks pass, the call goes to the
/// vault program with the addresses at `called`, in that order, followed
/// by the whitelist's address, and is signed by the whitelist.
pub open spec fn gated_call_spec(
    program_id: Seq<u8>,
    vault_program_id: Seq<u8>,
    accounts: Seq<AccountView>,
    presented: Option<Seq<Seq<u8>>>,
    count: int,
    config: int,
    whitelist: int,
    vault: int,
    user: int,
    called: Seq<usize>,
    instruction: VaultInstruction,
) -> Result<VaultCallView, ProgramError> {
    if accounts.len() != (if presented is Some {
        count
    } else {
        count + 1
    }) {
        Err(ProgramError::NotEnoughAccountKeys)
    } else {
        match authorize_spec(
            program_id,
            accounts[config],
            accounts[whitelist],
            accounts[vault].key,
            accounts[user],
            evidence_spec(accounts, presented, whitelist),
        ) {
            Err(e) => Err(e),
            Ok(seeds) => Ok(
                VaultCallView {
                    program_id: vault_program_id,
                    instruction,
                    accounts: keys_at(accounts, called).push(accounts[whitelist].key),
                    signer_seeds: seeds,
                },
            ),
        }
    }
}

/// Gathers the addresses of the accounts at `indexes`.
pub fn collect_keys(accounts: &[Account], indexes: &[usize]) -> (keys: Vec<[u8; 32]>)
    requires
        forall|i: int| 0 <= i < indexes@.len() ==> indexes@[i] < accounts@.len(),
    ensures
        digests(keys@) == keys_at(accounts_view(accounts@), indexes@),
{
    let mut keys: Vec<[u8; 32]> = Vec::new();
    let mut i: usize = 0;
    while i < indexes.len()
        invariant
            i <= indexes@.len(),
            keys@.len() == i,
            forall|j: int| 0 <= j < indexes@.len() ==> indexes@[j] < accounts@.len(),
            forall|j: int| 0 <= j < i ==> (#[trigger] keys@[j])@ == accounts@[indexes@[j] as int].key@,
        decreases indexes@.len() - i,
    {
        keys.push(accounts[indexes[i]].key);
        i += 1;
    }
    assert(digests(keys@) =~= keys_at(accounts_view(accounts@), indexes@));
    keys
}

/// Runs the checks of a gated operation and, where they pass, makes the
/// call that the whitelist signs.
pub fn gated_call(
    program_id: &[u8; 32],
    vault_program_id: &[u8; 32],
    accounts: &[Account],
    presented: &Option<Vec<[u8; 32]>>,
    count: usize,
    config: usize,
    whitelist: usize,
    vault: usize,
    user: usize,
    called: &[usize],
    instruction: VaultInstruction,
) -> (result: Result<VaultCall, ProgramError>)
    requires
        whitelist < count < usize::MAX,
        config < count,
        vault < count,
        user < count,
        forall|i: int| 0 <= i < called@.len() ==> called@[i] < count,
    ensures
        match result {
            Ok(call) => gated_call_spec(
                program_id@,
                vault_program_id@,
                accounts_view(accounts@),
                proof_view(*presented),
                count as int,
                config as int,
                whitelist as int,
                vault as int,
                user as int,
                called@,
                instruction,
            ) == Ok::<VaultCallView, ProgramError>(call@),
            Err(e) => gated_call_spec(
                program_id@,
                vault_program_id@,
                accounts_view(accounts@),
                proof_view(*presented),
                count as int,
                config as int,
                whitelist as int,
                vault as int,
                user as int,
                called@,
                instruction,
            ) == Err::<VaultCallView, ProgramError>(e),
        },
{
    let expected = if presented.is_some() {
        count
    } else {
        count + 1
    };
    if accounts.len() != expected {
        return Err(ProgramError::NotEnoughAccountKeys);
    }
    let evidence = match presented {
        Some(path) => Evidence::Proof(path),
        None => Evidence::Record(&accounts[whitelist + 1]),
    };
    let seeds = match authorize(
        program_id,
        &accounts[config],
        &accounts[whitelist],
        &accounts[vault].key,
        &accounts[user],
        &evidence,
    ) {
        Err(e) => {
            return Err(e);
        },
        Ok(seeds) => seeds,
    };
    let mut keys = collect_keys(accounts, called);
    keys.push(accounts[whitelist].key);
    proof {
        assert(digests(keys@) =~= keys_at(accounts_view(accounts@), called@).push(
            accounts@[whitelist as int].key@,
        ));
    }
    Ok(
        VaultCall {
            program_id: *vault_program_id,
            instruction,
            accounts: keys,
            signer_seeds: seeds,
        },
    )
}

/// The call that names `new_admin` as the account that may mint and burn
/// shares of `vault`, asked for by the vault's administrator `admin`. It
/// goes out unsigned by the whitelist.
pub open spec fn admin_call_spec(
    vault_program: Seq<u8>,
    vault_config: Seq<u8>,
    vault: Seq<u8>,
    admin: Seq<u8>,
    new_admin: Seq<u8>,
) -> VaultCallView {
    VaultCallView {
        program_id: vault_program,
        instruction: VaultInstruction::SetMintBurnAdmin,
        accounts: seq![vault_config, vault, admin, new_admin],
        signer_seeds: Seq::empty(),
    }
}

/// Makes the call that names `new_admin` as the account that may mint and
/// burn shares of `vault`.
pub fn admin_call(
    vault_program: &[u8; 32],
    vault_config: &[u8; 32],
    vault: &[u8; 32],
    admin: &[u8; 32],
    new_admin: &[u8; 32],
) -> (call: VaultCall)
    ensures
        call@ == admin_call_spec(vault_program@, vault_config@, vault@, admin@, new_admin@),
{
    let accounts: Vec<[u8; 32]> = vec![*vault_config, *vault, *admin, *new_admin];
    let signer_seeds: Vec<Vec<u8>> = Vec::new();
    proof {
        assert(digests(accounts@) =~= seq![vault_config@, vault@, admin@, new_admin@]);
        assert(seeds_view(signer_seeds@) =~= Seq::<Seq<u8>>::empty());
    }
    VaultCall {
        program_id: *vault_program,
        instruction: VaultInstruction::SetMintBurnAdmin,
        accounts,
        signer_seeds,
    }
}

} // verus!
