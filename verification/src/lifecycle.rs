//! What holds of the records over their lives: a record is created once, a
//! closed whitelist stays closed, and no operation is forwarded without the
//! whitelist's approval.
use vstd::prelude::*;
use crate::account::{AccountView, SYSTEM_PROGRAM_ID};
use crate::add_to_whitelist::add_to_whitelist_outcome;
use crate::close_whitelist::close_whitelist_outcome;
use crate::gate::{gated_call_spec, VaultInstruction};
use crate::generated_merkle_tree::{merkle_proof, merkle_root};
use crate::hash::leaf_hash;
use crate::initialize_config::initialize_config_outcome;
use crate::initialize_whitelist::initialize_whitelist_outcome;
use crate::instruction::VaultWhitelistInstruction;
use crate::mint::mint_outcome;
use crate::processor::dispatch_outcome;
use crate::remove_from_whitelist::remove_from_whitelist_outcome;
use crate::set_mint_burn_admin::set_mint_burn_admin_outcome;
use crate::vault::vault_admin_of;
use crate::record::{first_field, holds_record, second_field};
use crate::set_meta_merkle_root::set_meta_merkle_root_outcome;
use crate::soundness::{
    all_digests, collision_exists, lemma_only_members_validate, lemma_root_rotation,
};
use crate::verify::verify_spec;
use crate::whitelist_user::WHITELIST_USER_DISCRIMINATOR;

verus! {

/// Whether two views show one account in one state: the same address, the
/// same owner, the same storage. Who signed and what may be written
/// belongs to the operation, not to the account.
pub open spec fn same_state(a: AccountView, b: AccountView) -> bool {
    a.key == b.key && a.owner == b.owner && a.data == b.data
}

/// Where an operation expects the whitelist among its accounts; nothing
/// for the one operation that concerns no whitelist.
pub open spec fn whitelist_position(instruction: VaultWhitelistInstruction) -> Option<int> {
    match instruction {
        VaultWhitelistInstruction::InitializeConfig => None,
        VaultWhitelistInstruction::InitializeWhitelist { .. } => Some(1),
        VaultWhitelistInstruction::SetMintBurnAdmin => Some(2),
        VaultWhitelistInstruction::SetMetaMerkleRoot { .. } => Some(2),
        VaultWhitelistInstruction::AddToWhitelist => Some(2),
        VaultWhitelistInstruction::RemoveFromWhitelist => Some(2),
        VaultWhitelistInstruction::Mint { .. } => Some(9),
        VaultWhitelistInstruction::EnqueueWithdrawal { .. } => Some(10),
        VaultWhitelistInstruction::BurnWithdrawalTicket { .. } => Some(13),
        VaultWhitelistInstruction::CloseWhitelist => Some(2),
    }
}

/// The configuration is created once: after it was created, creating it
/// again at the same account fails, whoever asks.
pub proof fn lemma_config_created_once(
    program_id: Seq<u8>,
    accounts: Seq<AccountView>,
    again: Seq<AccountView>,
)
    requires
        initialize_config_outcome(program_id, accounts) is Ok,
        again.len() > 0 ==> same_state(
            again[0],
            initialize_config_outcome(program_id, accounts)->Ok_0[0],
        ),
    ensures
        initialize_config_outcome(program_id, again) is Err,
{
}

/// A whitelist is created once: after it was created, creating it again at
/// the same account fails, whoever asks and whatever the root.
pub proof fn lemma_whitelist_created_once(
    program_id: Seq<u8>,
    vault_program_id: Seq<u8>,
    accounts: Seq<AccountView>,
    meta_merkle_root: Seq<u8>,
    again: Seq<AccountView>,
    other_root: Seq<u8>,
)
    requires
        initialize_whitelist_outcome(program_id, vault_program_id, accounts, meta_merkle_root) is Ok,
        again.len() > 1 ==> same_state(
            again[1],
            initialize_whitelist_outcome(
                program_id,
                vault_program_id,
                accounts,
                meta_merkle_root,
            )->Ok_0[1],
        ),
    ensures
        initialize_whitelist_outcome(program_id, vault_program_id, again, other_root) is Err,
{
}

/// A closed whitelist stays closed: after a whitelist was closed, every
/// operation that is handed its account as the whitelist fails, creating
/// it anew included. The program's own address must not be the system
/// program's, under which a closed account would count as unclaimed.
pub proof fn lemma_closed_is_terminal(
    program_id: Seq<u8>,
    vault_program_id: Seq<u8>,
    accounts: Seq<AccountView>,
    again: Seq<AccountView>,
    instruction: VaultWhitelistInstruction,
)
    requires
        program_id != SYSTEM_PROGRAM_ID@,
        close_whitelist_outcome(program_id, vault_program_id, accounts) is Ok,
        whitelist_position(instruction) matches Some(position) && (position < again.len()
            ==> same_state(
            again[position],
            close_whitelist_outcome(program_id, vault_program_id, accounts)->Ok_0.0[2],
        )),
    ensures
        dispatch_outcome(program_id, vault_program_id, again, instruction) is Err,
{
}

/// No operation is forwarded without approval: where a gated operation goes
/// through, the user has signed, the whitelist is the vault's, and the
/// user's proof leads from the user's leaf to the root that the whitelist
/// stores, or, without a proof, the user's record stands at its address
/// and names this whitelist and this user.
pub proof fn lemma_gate_sound(
    program_id: Seq<u8>,
    vault_program_id: Seq<u8>,
    accounts: Seq<AccountView>,
    presented: Option<Seq<Seq<u8>>>,
    count: int,
    config: int,
    whitelist: int,
    vault: int,
    user: int,
    called: Seq<usize>,
    instruction: VaultInstruction,
)
    requires
        gated_call_spec(
            program_id,
            vault_program_id,
            accounts,
            presented,
            count,
            config,
            whitelist,
            vault,
            user,
            called,
            instruction,
        ) is Ok,
    ensures
        accounts[user].is_signer,
        accounts[whitelist].owner == program_id,
        first_field(accounts[whitelist].data) == accounts[vault].key,
        presented matches Some(path) ==> verify_spec(
            path,
            second_field(accounts[whitelist].data),
            leaf_hash(accounts[user].key),
        ),
        presented is None ==> {
            &&& accounts[whitelist + 1].owner == program_id
            &&& holds_record(WHITELIST_USER_DISCRIMINATOR, accounts[whitelist + 1].data)
            &&& first_field(accounts[whitelist + 1].data) == accounts[whitelist].key
            &&& second_field(accounts[whitelist + 1].data) == accounts[user].key
        },
{
}

/// After a rotation the whitelist stores the new root, and every other
/// account is as before.
pub proof fn lemma_rotation_stores_root(
    program_id: Seq<u8>,
    vault_program_id: Seq<u8>,
    accounts: Seq<AccountView>,
    meta_merkle_root: Seq<u8>,
)
    requires
        meta_merkle_root.len() == 32,
        set_meta_merkle_root_outcome(program_id, vault_program_id, accounts, meta_merkle_root) is Ok,
    ensures
        ({
            let after = set_meta_merkle_root_outcome(
                program_id,
                vault_program_id,
                accounts,
                meta_merkle_root,
            )->Ok_0;
            &&& after.len() == accounts.len()
            &&& second_field(after[2].data) == meta_merkle_root
            &&& first_field(after[2].data) == first_field(accounts[2].data)
            &&& after[2].key == accounts[2].key
            &&& after[2].owner == accounts[2].owner
            &&& forall|i: int| 0 <= i < accounts.len() && i != 2 ==> after[i] == accounts[i]
        }),
{
    let data = accounts[2].data;
    crate::record::lemma_record_data_fields(
        crate::whitelist::WHITELIST_DISCRIMINATOR,
        first_field(data),
        meta_merkle_root,
        crate::record::bump_field(data),
        crate::record::reserved_field(data),
    );
}

/// A proof made under an old member list is refused once the whitelist
/// stores the root of a new list that lacks the member and has another
/// root: the mint it comes with fails.
pub proof fn lemma_stale_proof_refused(
    program_id: Seq<u8>,
    vault_program_id: Seq<u8>,
    accounts: Seq<AccountView>,
    old_ids: Seq<Seq<u8>>,
    index: int,
    new_ids: Seq<Seq<u8>>,
    amount_in: u64,
    min_amount_out: u64,
)
    requires
        0 <= index < old_ids.len(),
        !new_ids.contains(old_ids[index]),
        merkle_root(new_ids) != merkle_root(old_ids),
        accounts.len() == 12,
        accounts[4].key == old_ids[index],
        second_field(accounts[9].data) == merkle_root(new_ids),
    ensures
        mint_outcome(
            program_id,
            vault_program_id,
            accounts,
            Some(merkle_proof(old_ids, index)),
            amount_in,
            min_amount_out,
        ) is Err,
{
    lemma_root_rotation(old_ids, index, new_ids);
}

/// Only members are forwarded: where the whitelist stores the root of a
/// member list and a gated operation goes through on a proof, the user is
/// a member of the list, or SHA-256 has a collision.
pub proof fn lemma_forwarded_user_is_member(
    program_id: Seq<u8>,
    vault_program_id: Seq<u8>,
    accounts: Seq<AccountView>,
    path: Seq<Seq<u8>>,
    count: int,
    config: int,
    whitelist: int,
    vault: int,
    user: int,
    called: Seq<usize>,
    instruction: VaultInstruction,
    ids: Seq<Seq<u8>>,
)
    requires
        ids.len() > 0,
        all_digests(path),
        second_field(accounts[whitelist].data) == merkle_root(ids),
        gated_call_spec(
            program_id,
            vault_program_id,
            accounts,
            Some(path),
            count,
            config,
            whitelist,
            vault,
            user,
            called,
            instruction,
        ) is Ok,
    ensures
        ids.contains(accounts[user].key) || collision_exists(),
{
    lemma_gate_sound(
        program_id,
        vault_program_id,
        accounts,
        Some(path),
        count,
        config,
        whitelist,
        vault,
        user,
        called,
        instruction,
    );
    lemma_only_members_validate(ids, accounts[user].key, path);
}

/// Whether `admin` has signed and is the administrator that `vault`
/// records.
pub open spec fn administers(vault: AccountView, admin: AccountView) -> bool {
    admin.is_signer && vault_admin_of(vault.data) == Ok::<Seq<u8>, u64>(admin.key)
}

/// Only the vault's own administrator changes its whitelist: wherever a
/// whitelist is created, rotated or closed, a user added or removed, or
/// the minting handed over, the account named as administrator has signed
/// and is the one that the vault records.
pub proof fn lemma_only_the_admin_changes(
    program_id: Seq<u8>,
    vault_program_id: Seq<u8>,
    accounts: Seq<AccountView>,
    meta_merkle_root: Seq<u8>,
)
    ensures
        initialize_whitelist_outcome(program_id, vault_program_id, accounts, meta_merkle_root) is Ok
            ==> administers(accounts[2], accounts[3]),
        set_meta_merkle_root_outcome(program_id, vault_program_id, accounts, meta_merkle_root) is Ok
            ==> administers(accounts[1], accounts[3]),
        add_to_whitelist_outcome(program_id, vault_program_id, accounts) is Ok ==> administers(
            accounts[1],
            accounts[4],
        ),
        remove_from_whitelist_outcome(program_id, vault_program_id, accounts) is Ok ==> administers(
            accounts[1],
            accounts[4],
        ),
        set_mint_burn_admin_outcome(program_id, vault_program_id, accounts) is Ok ==> administers(
            accounts[3],
            accounts[4],
        ),
        close_whitelist_outcome(program_id, vault_program_id, accounts) is Ok ==> administers(
            accounts[3],
            accounts[4],
        ),
{
}

} // verus!
