use jito_bytemuck::Discriminator;
use jito_vault_core::config::Config as VaultConfig;
use jito_vault_core::vault::Vault;
use solana_program::pubkey::Pubkey;
use vault_whitelist::account::{Account, SYSTEM_PROGRAM_ID};
use vault_whitelist::add_to_whitelist::process_add_to_whitelist;
use vault_whitelist::burn_withdrawal_ticket::process_burn_withdrawal_ticket;
use vault_whitelist::close_whitelist::process_close_whitelist;
use vault_whitelist::config::Config;
use vault_whitelist::enqueue_withdrawal::process_enqueue_withdrawal;
use vault_whitelist::error::{ProgramError, VaultWhitelistError};
use vault_whitelist::gate::{VaultCall, VaultInstruction};
use vault_whitelist::generated_merkle_tree::GeneratedMerkleTree;
use vault_whitelist::initialize_config::process_initialize_config;
use vault_whitelist::initialize_whitelist::process_initialize_whitelist;
use vault_whitelist::instruction::VaultWhitelistInstruction;
use vault_whitelist::mint::process_mint;
use vault_whitelist::processor::{dispatch, process_instruction, Deployment};
use vault_whitelist::remove_from_whitelist::process_remove_from_whitelist;
use vault_whitelist::set_meta_merkle_root::process_set_meta_merkle_root;
use vault_whitelist::set_mint_burn_admin::process_set_mint_burn_admin;
use vault_whitelist::vault_whitelist_meta::VaultWhitelistMeta;
use vault_whitelist::whitelist::Whitelist;
use vault_whitelist::whitelist_user::WhitelistUser;

const PROGRAM: [u8; 32] = [7; 32];
const VAULT_PROGRAM: [u8; 32] = [9; 32];
const ADMIN: [u8; 32] = [21; 32];
const VAULT_ADMIN: [u8; 32] = [22; 32];
const OTHER_ADMIN: [u8; 32] = [23; 32];
const DEPOSITOR: [u8; 32] = [31; 32];
const STRANGER: [u8; 32] = [32; 32];

fn plain(key: [u8; 32]) -> Account {
    Account { key, owner: SYSTEM_PROGRAM_ID, is_signer: false, is_writable: true, data: vec![] }
}

fn signer(key: [u8; 32]) -> Account {
    Account { key, owner: SYSTEM_PROGRAM_ID, is_signer: true, is_writable: true, data: vec![] }
}

fn numbered(n: u8) -> Account {
    plain([100 + n; 32])
}

fn vault_account(base: u8, admin: [u8; 32]) -> Account {
    let program = Pubkey::new_from_array(VAULT_PROGRAM);
    let base = Pubkey::new_from_array([base; 32]);
    let (address, bump) = Pubkey::find_program_address(&[b"vault", base.as_ref()], &program);
    let vault = Vault::new(
        Pubkey::new_from_array([41; 32]),
        Pubkey::new_from_array([42; 32]),
        Pubkey::new_from_array(admin),
        0,
        base,
        0,
        0,
        0,
        0,
        bump,
        0,
    )
    .unwrap();
    let mut data = vec![0u8; 8];
    data[0] = Vault::DISCRIMINATOR;
    data.extend_from_slice(bytemuck::bytes_of(&vault));
    Account {
        key: address.to_bytes(),
        owner: VAULT_PROGRAM,
        is_signer: false,
        is_writable: true,
        data,
    }
}

fn vault_config_account() -> Account {
    let program = Pubkey::new_from_array(VAULT_PROGRAM);
    let (address, bump) = Pubkey::find_program_address(&[b"config"], &program);
    let config = VaultConfig::new(
        Pubkey::new_from_array(ADMIN),
        Pubkey::new_from_array([43; 32]),
        Pubkey::new_from_array([44; 32]),
        0,
        bump,
    );
    let mut data = vec![0u8; 8];
    data[0] = VaultConfig::DISCRIMINATOR;
    data.extend_from_slice(bytemuck::bytes_of(&config));
    Account {
        key: address.to_bytes(),
        owner: VAULT_PROGRAM,
        is_signer: false,
        is_writable: false,
        data,
    }
}

fn config_address() -> [u8; 32] {
    Config::find_program_address(&PROGRAM).unwrap().0
}

fn whitelist_address(vault: &[u8; 32]) -> [u8; 32] {
    Whitelist::find_program_address(&PROGRAM, vault).unwrap().0
}

fn user_record_address(whitelist: &[u8; 32], user: &[u8; 32]) -> [u8; 32] {
    WhitelistUser::find_program_address(&PROGRAM, whitelist, user).unwrap().0
}

fn initialized_config() -> Account {
    let mut accounts =
        vec![plain(config_address()), signer(ADMIN), plain(VAULT_PROGRAM), plain(SYSTEM_PROGRAM_ID)];
    process_initialize_config(&PROGRAM, &mut accounts).unwrap();
    accounts.remove(0)
}

fn initialized_whitelist(config: &Account, vault: &Account, root: [u8; 32]) -> Account {
    let mut accounts = vec![
        config.clone(),
        plain(whitelist_address(&vault.key)),
        vault.clone(),
        signer(VAULT_ADMIN),
        plain(SYSTEM_PROGRAM_ID),
    ];
    process_initialize_whitelist(&PROGRAM, &VAULT_PROGRAM, &mut accounts, &root).unwrap();
    accounts.remove(1)
}

fn members() -> Vec<VaultWhitelistMeta> {
    vec![
        VaultWhitelistMeta::new([30; 32]),
        VaultWhitelistMeta::new(DEPOSITOR),
        VaultWhitelistMeta::new([33; 32]),
    ]
}

fn mint_accounts(config: &Account, vault: &Account, whitelist: &Account, user: Account) -> Vec<Account> {
    vec![
        config.clone(),
        vault_config_account(),
        vault.clone(),
        numbered(3),
        user,
        numbered(5),
        numbered(6),
        numbered(7),
        numbered(8),
        whitelist.clone(),
        plain(VAULT_PROGRAM),
        numbered(11),
    ]
}

fn enqueue_accounts(config: &Account, vault: &Account, whitelist: &Account, user: Account) -> Vec<Account> {
    vec![
        vault_config_account(),
        vault.clone(),
        numbered(2),
        numbered(3),
        user,
        numbered(5),
        numbered(6),
        numbered(7),
        plain(SYSTEM_PROGRAM_ID),
        config.clone(),
        whitelist.clone(),
        plain(VAULT_PROGRAM),
    ]
}

fn burn_accounts(config: &Account, vault: &Account, whitelist: &Account, user: Account) -> Vec<Account> {
    vec![
        vault_config_account(),
        vault.clone(),
        numbered(2),
        numbered(3),
        user,
        numbered(5),
        numbered(6),
        numbered(7),
        numbered(8),
        numbered(9),
        numbered(10),
        plain(SYSTEM_PROGRAM_ID),
        config.clone(),
        whitelist.clone(),
        plain(VAULT_PROGRAM),
    ]
}

fn membership_accounts(
    config: &Account,
    vault: &Account,
    whitelist: &Account,
    record: Account,
    admin: Account,
    user: [u8; 32],
) -> Vec<Account> {
    vec![
        config.clone(),
        vault.clone(),
        whitelist.clone(),
        record,
        admin,
        plain(user),
        plain(SYSTEM_PROGRAM_ID),
    ]
}

fn signer_seeds(vault: &[u8; 32]) -> Vec<Vec<u8>> {
    let (_, bump, mut seeds) = Whitelist::find_program_address(&PROGRAM, vault).unwrap();
    seeds.push(vec![bump]);
    seeds
}

fn custom(e: VaultWhitelistError) -> ProgramError {
    ProgramError::from(e)
}

#[test]
fn test_initialize_config() {
    let mut accounts =
        vec![plain(config_address()), signer(ADMIN), plain(VAULT_PROGRAM), plain(SYSTEM_PROGRAM_ID)];
    let before = accounts.clone();
    process_initialize_config(&PROGRAM, &mut accounts).unwrap();
    assert_eq!(accounts[0].owner, PROGRAM);
    assert_eq!(accounts[0].key, before[0].key);
    assert_eq!(accounts[0].data.len(), 336);
    let config = Config::try_from_slice_unchecked(&accounts[0].data).unwrap();
    let bump = Config::find_program_address(&PROGRAM).unwrap().1;
    assert_eq!(config, Config::new(ADMIN, VAULT_PROGRAM, bump));
    assert_eq!(&accounts[1..], &before[1..]);
    assert_eq!(Config::load(&PROGRAM, &accounts[0], true), Ok(()));
}

#[test]
fn second_initialize_config_fails() {
    let config = initialized_config();
    let mut accounts =
        vec![config.clone(), signer(OTHER_ADMIN), plain(VAULT_PROGRAM), plain(SYSTEM_PROGRAM_ID)];
    let before = accounts.clone();
    assert_eq!(
        process_initialize_config(&PROGRAM, &mut accounts),
        Err(ProgramError::InvalidAccountOwner)
    );
    assert_eq!(accounts, before);
}

#[test]
fn initialize_config_refuses_each_broken_condition() {
    let good =
        vec![plain(config_address()), signer(ADMIN), plain(VAULT_PROGRAM), plain(SYSTEM_PROGRAM_ID)];
    let mut short = good[..3].to_vec();
    assert_eq!(
        process_initialize_config(&PROGRAM, &mut short),
        Err(ProgramError::NotEnoughAccountKeys)
    );
    let mut stored = good.clone();
    stored[0].data = vec![1];
    assert_eq!(
        process_initialize_config(&PROGRAM, &mut stored),
        Err(ProgramError::AccountAlreadyInitialized)
    );
    let mut frozen = good.clone();
    frozen[0].is_writable = false;
    assert_eq!(
        process_initialize_config(&PROGRAM, &mut frozen),
        Err(ProgramError::InvalidAccountData)
    );
    let mut unsigned = good.clone();
    unsigned[1].is_signer = false;
    assert_eq!(
        process_initialize_config(&PROGRAM, &mut unsigned),
        Err(ProgramError::MissingRequiredSignature)
    );
    let mut wrong_system = good.clone();
    wrong_system[3].key = [1; 32];
    assert_eq!(
        process_initialize_config(&PROGRAM, &mut wrong_system),
        Err(ProgramError::IncorrectProgramId)
    );
    let mut elsewhere = good.clone();
    elsewhere[0].key = [2; 32];
    assert_eq!(
        process_initialize_config(&PROGRAM, &mut elsewhere),
        Err(ProgramError::InvalidAccountData)
    );
}

#[test]
fn test_initialize_whitelist() {
    let config = initialized_config();
    let vault = vault_account(3, VAULT_ADMIN);
    let meta_merkle_root = [0; 32];
    let account = initialized_whitelist(&config, &vault, meta_merkle_root);
    assert_eq!(account.owner, PROGRAM);
    let whitelist = Whitelist::try_from_slice_unchecked(&account.data).unwrap();
    assert_eq!(whitelist.vault, vault.key);
    assert_eq!(whitelist.meta_merkle_root, meta_merkle_root);
    assert_eq!(whitelist.bump, Whitelist::find_program_address(&PROGRAM, &vault.key).unwrap().1);
    assert_eq!(Whitelist::load(&PROGRAM, &account, &vault.key, true), Ok(()));
}

#[test]
fn test_initialize_whitelist_invalid_vault_admin_fails() {
    let config = initialized_config();
    let vault = vault_account(3, VAULT_ADMIN);
    let mut accounts = vec![
        config,
        plain(whitelist_address(&vault.key)),
        vault,
        signer(OTHER_ADMIN),
        plain(SYSTEM_PROGRAM_ID),
    ];
    let before = accounts.clone();
    let result = process_initialize_whitelist(&PROGRAM, &VAULT_PROGRAM, &mut accounts, &[0; 32]);
    assert_eq!(result, Err(ProgramError::Custom(1005)));
    assert_eq!(accounts, before);
}

#[test]
fn second_initialize_whitelist_fails() {
    let config = initialized_config();
    let vault = vault_account(3, VAULT_ADMIN);
    let whitelist = initialized_whitelist(&config, &vault, [0; 32]);
    let mut accounts =
        vec![config, whitelist, vault, signer(VAULT_ADMIN), plain(SYSTEM_PROGRAM_ID)];
    let result = process_initialize_whitelist(&PROGRAM, &VAULT_PROGRAM, &mut accounts, &[5; 32]);
    assert_eq!(result, Err(ProgramError::InvalidAccountOwner));
}

#[test]
fn initialize_whitelist_refuses_what_is_no_vault() {
    let config = initialized_config();
    let vault = vault_account(3, VAULT_ADMIN);
    let run = |vault: Account| {
        let mut accounts = vec![
            config.clone(),
            plain(whitelist_address(&vault.key)),
            vault,
            signer(VAULT_ADMIN),
            plain(SYSTEM_PROGRAM_ID),
        ];
        process_initialize_whitelist(&PROGRAM, &VAULT_PROGRAM, &mut accounts, &[0; 32])
    };
    let mut foreign = vault.clone();
    foreign.owner = [1; 32];
    assert_eq!(run(foreign), Err(ProgramError::InvalidAccountOwner));
    let mut empty = vault.clone();
    empty.data = vec![];
    assert_eq!(run(empty), Err(ProgramError::InvalidAccountData));
    let mut stub = vault.clone();
    stub.data = vec![2, 0, 0];
    assert_eq!(run(stub), Err(ProgramError::InvalidAccountData));
    let mut mistagged = vault.clone();
    mistagged.data[0] = 3;
    assert_eq!(run(mistagged), Err(ProgramError::InvalidAccountData));
    let mut moved = vault.clone();
    moved.key = [4; 32];
    assert_eq!(run(moved), Err(ProgramError::InvalidAccountData));
    assert_eq!(run(vault), Ok(()));
}

#[test]
fn test_set_meta_merkle_root() {
    let config = initialized_config();
    let vault = vault_account(3, VAULT_ADMIN);
    let whitelist = initialized_whitelist(&config, &vault, [0; 32]);
    let meta_merkle_root = [1; 32];
    let mut accounts = vec![config, vault.clone(), whitelist.clone(), signer(VAULT_ADMIN)];
    process_set_meta_merkle_root(&PROGRAM, &VAULT_PROGRAM, &mut accounts, &meta_merkle_root)
        .unwrap();
    let stored = Whitelist::try_from_slice_unchecked(&accounts[2].data).unwrap();
    let before = Whitelist::try_from_slice_unchecked(&whitelist.data).unwrap();
    assert_eq!(stored.meta_merkle_root, meta_merkle_root);
    assert_eq!(stored.vault, vault.key);
    assert_eq!(stored.bump, before.bump);
    assert_eq!(accounts[2].owner, PROGRAM);
    assert_eq!(accounts[2].key, whitelist.key);
}

#[test]
fn test_set_meta_merkle_root_invalid_vault_admin_fails() {
    let config = initialized_config();
    let vault = vault_account(3, VAULT_ADMIN);
    let whitelist = initialized_whitelist(&config, &vault, [0; 32]);
    let mut accounts = vec![config, vault, whitelist, signer(OTHER_ADMIN)];
    let before = accounts.clone();
    let result = process_set_meta_merkle_root(&PROGRAM, &VAULT_PROGRAM, &mut accounts, &[1; 32]);
    assert_eq!(result, Err(ProgramError::Custom(1005)));
    assert_eq!(accounts, before);
}

#[test]
fn set_meta_merkle_root_needs_the_signature_and_the_vaults_own_whitelist() {
    let config = initialized_config();
    let vault = vault_account(3, VAULT_ADMIN);
    let other_vault = vault_account(4, VAULT_ADMIN);
    let whitelist = initialized_whitelist(&config, &vault, [0; 32]);
    let mut unsigned = vec![config.clone(), vault.clone(), whitelist.clone(), plain(VAULT_ADMIN)];
    assert_eq!(
        process_set_meta_merkle_root(&PROGRAM, &VAULT_PROGRAM, &mut unsigned, &[1; 32]),
        Err(ProgramError::MissingRequiredSignature)
    );
    let mut crossed = vec![config.clone(), other_vault, whitelist.clone(), signer(VAULT_ADMIN)];
    assert_eq!(
        process_set_meta_merkle_root(&PROGRAM, &VAULT_PROGRAM, &mut crossed, &[1; 32]),
        Err(ProgramError::InvalidAccountData)
    );
    let mut frozen = whitelist;
    frozen.is_writable = false;
    let mut accounts = vec![config, vault, frozen, signer(VAULT_ADMIN)];
    assert_eq!(
        process_set_meta_merkle_root(&PROGRAM, &VAULT_PROGRAM, &mut accounts, &[1; 32]),
        Err(ProgramError::InvalidAccountData)
    );
}

#[test]
fn test_set_mint_burn_admin() {
    let config = initialized_config();
    let vault = vault_account(3, VAULT_ADMIN);
    let whitelist = initialized_whitelist(&config, &vault, [0; 32]);
    let vault_config = vault_config_account();
    let accounts = vec![
        config,
        vault_config.clone(),
        whitelist.clone(),
        vault.clone(),
        signer(VAULT_ADMIN),
        plain(VAULT_PROGRAM),
    ];
    let call = process_set_mint_burn_admin(&PROGRAM, &VAULT_PROGRAM, &accounts).unwrap();
    assert_eq!(
        call,
        VaultCall {
            program_id: VAULT_PROGRAM,
            instruction: VaultInstruction::SetMintBurnAdmin,
            accounts: vec![vault_config.key, vault.key, VAULT_ADMIN, whitelist.key],
            signer_seeds: vec![],
        }
    );
    let mut wrong_config = accounts.clone();
    wrong_config[1].owner = [1; 32];
    assert_eq!(
        process_set_mint_burn_admin(&PROGRAM, &VAULT_PROGRAM, &wrong_config),
        Err(ProgramError::InvalidAccountOwner)
    );
    let mut frozen_vault = accounts.clone();
    frozen_vault[3].is_writable = false;
    assert_eq!(
        process_set_mint_burn_admin(&PROGRAM, &VAULT_PROGRAM, &frozen_vault),
        Err(ProgramError::InvalidAccountData)
    );
    let mut stranger = accounts;
    stranger[4] = signer(OTHER_ADMIN);
    assert_eq!(
        process_set_mint_burn_admin(&PROGRAM, &VAULT_PROGRAM, &stranger),
        Err(ProgramError::Custom(1005))
    );
}

#[test]
fn test_mint() {
    let config = initialized_config();
    let vault = vault_account(3, VAULT_ADMIN);
    let list = members();
    let tree = GeneratedMerkleTree::new(&list).unwrap();
    let whitelist = initialized_whitelist(&config, &vault, tree.merkle_root);
    let proof = GeneratedMerkleTree::get_proof(&list, &DEPOSITOR).unwrap();
    let accounts = mint_accounts(&config, &vault, &whitelist, signer(DEPOSITOR));
    let call =
        process_mint(&PROGRAM, &VAULT_PROGRAM, &accounts, Some(proof), 1000, 90000).unwrap();
    assert_eq!(call.program_id, VAULT_PROGRAM);
    assert_eq!(
        call.instruction,
        VaultInstruction::MintTo { amount_in: 1000, min_amount_out: 90000 }
    );
    let mut expected: Vec<[u8; 32]> = accounts[1..9].iter().map(|a| a.key).collect();
    expected.push(whitelist.key);
    assert_eq!(call.accounts, expected);
    assert_eq!(call.signer_seeds, signer_seeds(&vault.key));
}

#[test]
fn test_mint_invalid_user() {
    let config = initialized_config();
    let vault = vault_account(3, VAULT_ADMIN);
    let list = members();
    let tree = GeneratedMerkleTree::new(&list).unwrap();
    let whitelist = initialized_whitelist(&config, &vault, tree.merkle_root);
    let proof = GeneratedMerkleTree::get_proof(&list, &DEPOSITOR).unwrap();
    let accounts = mint_accounts(&config, &vault, &whitelist, signer(STRANGER));
    let result = process_mint(&PROGRAM, &VAULT_PROGRAM, &accounts, Some(proof), 1000, 90000);
    assert_eq!(result, Err(custom(VaultWhitelistError::InvalidProof)));
    assert_eq!(result, Err(ProgramError::Custom(3006)));
}

#[test]
fn mint_refuses_each_broken_condition() {
    let config = initialized_config();
    let vault = vault_account(3, VAULT_ADMIN);
    let other_vault = vault_account(4, VAULT_ADMIN);
    let list = members();
    let tree = GeneratedMerkleTree::new(&list).unwrap();
    let whitelist = initialized_whitelist(&config, &vault, tree.merkle_root);
    let proof = GeneratedMerkleTree::get_proof(&list, &DEPOSITOR).unwrap();
    let good = mint_accounts(&config, &vault, &whitelist, signer(DEPOSITOR));
    let run = |accounts: &Vec<Account>| {
        process_mint(&PROGRAM, &VAULT_PROGRAM, accounts, Some(proof.clone()), 1, 1)
    };
    assert!(run(&good).is_ok());
    let mut long = good.clone();
    long.push(numbered(12));
    assert_eq!(run(&long), Err(ProgramError::NotEnoughAccountKeys));
    let mut no_config = good.clone();
    no_config[0] = plain(config_address());
    assert_eq!(run(&no_config), Err(ProgramError::InvalidAccountOwner));
    let mut frozen = good.clone();
    frozen[9].is_writable = false;
    assert_eq!(run(&frozen), Err(ProgramError::InvalidAccountData));
    let mut crossed = good.clone();
    crossed[2] = other_vault;
    assert_eq!(run(&crossed), Err(ProgramError::InvalidAccountData));
    let mut unsigned = good.clone();
    unsigned[4].is_signer = false;
    assert_eq!(run(&unsigned), Err(ProgramError::MissingRequiredSignature));
    let mut read_only = good.clone();
    read_only[4].is_writable = false;
    assert_eq!(run(&read_only), Err(ProgramError::InvalidAccountData));
    let mut tampered = proof.clone();
    tampered[0][0] ^= 1;
    assert_eq!(
        process_mint(&PROGRAM, &VAULT_PROGRAM, &good, Some(tampered), 1, 1),
        Err(ProgramError::Custom(3006))
    );
    assert_eq!(
        process_mint(&PROGRAM, &VAULT_PROGRAM, &good, None, 1, 1),
        Err(ProgramError::NotEnoughAccountKeys)
    );
}

#[test]
fn rotation_voids_a_pending_proof() {
    let config = initialized_config();
    let vault = vault_account(3, VAULT_ADMIN);
    let list = members();
    let tree = GeneratedMerkleTree::new(&list).unwrap();
    let whitelist = initialized_whitelist(&config, &vault, tree.merkle_root);
    let proof = GeneratedMerkleTree::get_proof(&list, &DEPOSITOR).unwrap();
    let remaining = vec![list[0].clone(), list[2].clone()];
    let new_root = GeneratedMerkleTree::new(&remaining).unwrap().merkle_root;
    let mut accounts = vec![config.clone(), vault.clone(), whitelist, signer(VAULT_ADMIN)];
    process_set_meta_merkle_root(&PROGRAM, &VAULT_PROGRAM, &mut accounts, &new_root).unwrap();
    let rotated = accounts.remove(2);
    let accounts = mint_accounts(&config, &vault, &rotated, signer(DEPOSITOR));
    assert_eq!(
        process_mint(&PROGRAM, &VAULT_PROGRAM, &accounts, Some(proof), 1000, 90000),
        Err(ProgramError::Custom(3006))
    );
    let fresh = GeneratedMerkleTree::get_proof(&remaining, &[30; 32]).unwrap();
    let accounts = mint_accounts(&config, &vault, &rotated, signer([30; 32]));
    assert!(process_mint(&PROGRAM, &VAULT_PROGRAM, &accounts, Some(fresh), 1000, 90000).is_ok());
}

#[test]
fn enqueue_withdrawal_forwards_for_a_member_only() {
    let config = initialized_config();
    let vault = vault_account(3, VAULT_ADMIN);
    let list = members();
    let tree = GeneratedMerkleTree::new(&list).unwrap();
    let whitelist = initialized_whitelist(&config, &vault, tree.merkle_root);
    let proof = GeneratedMerkleTree::get_proof(&list, &DEPOSITOR).unwrap();
    let accounts = enqueue_accounts(&config, &vault, &whitelist, signer(DEPOSITOR));
    let call =
        process_enqueue_withdrawal(&PROGRAM, &VAULT_PROGRAM, &accounts, Some(proof.clone()), 100)
            .unwrap();
    assert_eq!(call.instruction, VaultInstruction::EnqueueWithdrawal { amount: 100 });
    let mut expected: Vec<[u8; 32]> = accounts[0..7].iter().map(|a| a.key).collect();
    expected.push(whitelist.key);
    assert_eq!(call.accounts, expected);
    assert_eq!(call.signer_seeds, signer_seeds(&vault.key));
    assert_eq!(call.program_id, VAULT_PROGRAM);
    let accounts = enqueue_accounts(&config, &vault, &whitelist, signer(STRANGER));
    assert_eq!(
        process_enqueue_withdrawal(&PROGRAM, &VAULT_PROGRAM, &accounts, Some(proof), 100),
        Err(ProgramError::Custom(3006))
    );
}

#[test]
fn test_burn_withdrawal_ticket_ok() {
    let config = initialized_config();
    let vault = vault_account(3, VAULT_ADMIN);
    let list = members();
    let tree = GeneratedMerkleTree::new(&list).unwrap();
    let whitelist = initialized_whitelist(&config, &vault, tree.merkle_root);
    let proof = GeneratedMerkleTree::get_proof(&list, &DEPOSITOR).unwrap();
    let accounts = burn_accounts(&config, &vault, &whitelist, signer(DEPOSITOR));
    let call =
        process_burn_withdrawal_ticket(&PROGRAM, &VAULT_PROGRAM, &accounts, Some(proof)).unwrap();
    assert_eq!(call.instruction, VaultInstruction::BurnWithdrawalTicket);
    let mut expected: Vec<[u8; 32]> = accounts[0..10].iter().map(|a| a.key).collect();
    expected.push(whitelist.key);
    assert_eq!(call.accounts, expected);
    assert_eq!(call.signer_seeds, signer_seeds(&vault.key));
}

#[test]
fn test_burn_withdrawal_ticket_invalid_proof_fails() {
    let config = initialized_config();
    let vault = vault_account(3, VAULT_ADMIN);
    let list = members();
    let tree = GeneratedMerkleTree::new(&list).unwrap();
    let whitelist = initialized_whitelist(&config, &vault, tree.merkle_root);
    let proof = vec![[0u8; 32], [1u8; 32]];
    let accounts = burn_accounts(&config, &vault, &whitelist, signer(DEPOSITOR));
    let result = process_burn_withdrawal_ticket(&PROGRAM, &VAULT_PROGRAM, &accounts, Some(proof));
    assert_eq!(result, Err(custom(VaultWhitelistError::InvalidProof)));
}

#[test]
fn test_add_to_whitelist() {
    let config = initialized_config();
    let vault = vault_account(3, VAULT_ADMIN);
    let whitelist = initialized_whitelist(&config, &vault, [0; 32]);
    let address = user_record_address(&whitelist.key, &DEPOSITOR);
    let mut accounts = membership_accounts(
        &config,
        &vault,
        &whitelist,
        plain(address),
        signer(VAULT_ADMIN),
        DEPOSITOR,
    );
    process_add_to_whitelist(&PROGRAM, &VAULT_PROGRAM, &mut accounts).unwrap();
    assert_eq!(accounts[3].owner, PROGRAM);
    let whitelist_user = WhitelistUser::try_from_slice_unchecked(&accounts[3].data).unwrap();
    assert_eq!(whitelist_user.whitelist, whitelist.key);
    assert_eq!(whitelist_user.user, DEPOSITOR);
    let before = accounts.clone();
    assert_eq!(
        process_add_to_whitelist(&PROGRAM, &VAULT_PROGRAM, &mut accounts),
        Err(ProgramError::InvalidAccountOwner)
    );
    assert_eq!(accounts, before);
}

#[test]
fn add_to_whitelist_invalid_vault_admin_fails() {
    let config = initialized_config();
    let vault = vault_account(3, VAULT_ADMIN);
    let whitelist = initialized_whitelist(&config, &vault, [0; 32]);
    let address = user_record_address(&whitelist.key, &DEPOSITOR);
    let mut accounts = membership_accounts(
        &config,
        &vault,
        &whitelist,
        plain(address),
        signer(OTHER_ADMIN),
        DEPOSITOR,
    );
    assert_eq!(
        process_add_to_whitelist(&PROGRAM, &VAULT_PROGRAM, &mut accounts),
        Err(ProgramError::Custom(1005))
    );
    let mut misplaced = membership_accounts(
        &config,
        &vault,
        &whitelist,
        plain([1; 32]),
        signer(VAULT_ADMIN),
        DEPOSITOR,
    );
    assert_eq!(
        process_add_to_whitelist(&PROGRAM, &VAULT_PROGRAM, &mut misplaced),
        Err(ProgramError::InvalidAccountData)
    );
}

#[test]
fn explicit_record_opens_the_operations_to_its_user_alone() {
    let config = initialized_config();
    let vault = vault_account(3, VAULT_ADMIN);
    let whitelist = initialized_whitelist(&config, &vault, [0; 32]);
    let address = user_record_address(&whitelist.key, &DEPOSITOR);
    let mut accounts = membership_accounts(
        &config,
        &vault,
        &whitelist,
        plain(address),
        signer(VAULT_ADMIN),
        DEPOSITOR,
    );
    process_add_to_whitelist(&PROGRAM, &VAULT_PROGRAM, &mut accounts).unwrap();
    let record = accounts.remove(3);

    let mut mint = mint_accounts(&config, &vault, &whitelist, signer(DEPOSITOR));
    mint.insert(10, record.clone());
    let call = process_mint(&PROGRAM, &VAULT_PROGRAM, &mint, None, 1000, 90000).unwrap();
    assert_eq!(call.signer_seeds, signer_seeds(&vault.key));
    assert_eq!(call.accounts.len(), 9);
    assert_eq!(
        process_mint(&PROGRAM, &VAULT_PROGRAM, &mint, Some(vec![]), 1000, 90000),
        Err(ProgramError::NotEnoughAccountKeys)
    );

    let mut stranger = mint_accounts(&config, &vault, &whitelist, signer(STRANGER));
    stranger.insert(10, record.clone());
    assert_eq!(
        process_mint(&PROGRAM, &VAULT_PROGRAM, &stranger, None, 1000, 90000),
        Err(ProgramError::InvalidAccountData)
    );
    let mut missing = mint_accounts(&config, &vault, &whitelist, signer(STRANGER));
    missing.insert(10, plain(user_record_address(&whitelist.key, &STRANGER)));
    assert_eq!(
        process_mint(&PROGRAM, &VAULT_PROGRAM, &missing, None, 1000, 90000),
        Err(ProgramError::InvalidAccountOwner)
    );

    let mut enqueue = enqueue_accounts(&config, &vault, &whitelist, signer(DEPOSITOR));
    enqueue.insert(11, record.clone());
    assert!(process_enqueue_withdrawal(&PROGRAM, &VAULT_PROGRAM, &enqueue, None, 5).is_ok());
    let mut burn = burn_accounts(&config, &vault, &whitelist, signer(DEPOSITOR));
    burn.insert(14, record);
    assert!(process_burn_withdrawal_ticket(&PROGRAM, &VAULT_PROGRAM, &burn, None).is_ok());
}

#[test]
fn forged_record_is_told_by_its_fields() {
    let config = initialized_config();
    let vault = vault_account(3, VAULT_ADMIN);
    let whitelist = initialized_whitelist(&config, &vault, [0; 32]);
    let address = user_record_address(&whitelist.key, &DEPOSITOR);
    let bump = WhitelistUser::find_program_address(&PROGRAM, &whitelist.key, &DEPOSITOR).unwrap().1;
    let forge = |whitelist_key: [u8; 32], user: [u8; 32], len: usize| {
        let mut data = WhitelistUser::new(whitelist_key, user, bump).to_account_data();
        data.truncate(len);
        Account { key: address, owner: PROGRAM, is_signer: false, is_writable: false, data }
    };
    let run = |record: Account| {
        let mut mint = mint_accounts(&config, &vault, &whitelist, signer(DEPOSITOR));
        mint.insert(10, record);
        process_mint(&PROGRAM, &VAULT_PROGRAM, &mint, None, 1, 1)
    };
    assert!(run(forge(whitelist.key, DEPOSITOR, 336)).is_ok());
    assert_eq!(run(forge(whitelist.key, DEPOSITOR, 300)), Err(ProgramError::InvalidAccountData));
    assert_eq!(
        run(forge([1; 32], DEPOSITOR, 336)),
        Err(custom(VaultWhitelistError::InvalidWhitelist))
    );
    assert_eq!(
        run(forge(whitelist.key, STRANGER, 336)),
        Err(custom(VaultWhitelistError::InvalidWhitelistUser))
    );
}

#[test]
fn test_remove_from_whitelist() {
    let config = initialized_config();
    let vault = vault_account(3, VAULT_ADMIN);
    let whitelist = initialized_whitelist(&config, &vault, [0; 32]);
    let address = user_record_address(&whitelist.key, &DEPOSITOR);
    let mut accounts = membership_accounts(
        &config,
        &vault,
        &whitelist,
        plain(address),
        signer(VAULT_ADMIN),
        DEPOSITOR,
    );
    process_add_to_whitelist(&PROGRAM, &VAULT_PROGRAM, &mut accounts).unwrap();
    let record = accounts[3].clone();
    process_remove_from_whitelist(&PROGRAM, &VAULT_PROGRAM, &mut accounts).unwrap();
    assert_eq!(accounts[3].owner, SYSTEM_PROGRAM_ID);
    assert_eq!(accounts[3].data, Vec::<u8>::new());
    assert_eq!(accounts[3].key, address);

    let mut mint = mint_accounts(&config, &vault, &whitelist, signer(DEPOSITOR));
    mint.insert(10, accounts[3].clone());
    assert_eq!(
        process_mint(&PROGRAM, &VAULT_PROGRAM, &mint, None, 1000, 90000),
        Err(ProgramError::InvalidAccountOwner)
    );
    assert_eq!(
        process_remove_from_whitelist(&PROGRAM, &VAULT_PROGRAM, &mut accounts),
        Err(ProgramError::InvalidAccountOwner)
    );
    process_add_to_whitelist(&PROGRAM, &VAULT_PROGRAM, &mut accounts).unwrap();
    assert_eq!(accounts[3], record);
}

#[test]
fn test_close_whitelist() {
    let config = initialized_config();
    let vault = vault_account(3, VAULT_ADMIN);
    let whitelist = initialized_whitelist(&config, &vault, [0; 32]);
    let vault_config = vault_config_account();
    let admin_accounts = vec![
        config.clone(),
        vault_config.clone(),
        whitelist.clone(),
        vault.clone(),
        signer(VAULT_ADMIN),
        plain(VAULT_PROGRAM),
    ];
    process_set_mint_burn_admin(&PROGRAM, &VAULT_PROGRAM, &admin_accounts).unwrap();
    process_set_mint_burn_admin(&PROGRAM, &VAULT_PROGRAM, &admin_accounts).unwrap();
    let mut accounts = admin_accounts.clone();
    accounts.push(plain(SYSTEM_PROGRAM_ID));
    let call = process_close_whitelist(&PROGRAM, &VAULT_PROGRAM, &mut accounts).unwrap();
    assert_eq!(
        call,
        VaultCall {
            program_id: VAULT_PROGRAM,
            instruction: VaultInstruction::SetMintBurnAdmin,
            accounts: vec![vault_config.key, vault.key, VAULT_ADMIN, [0; 32]],
            signer_seeds: vec![],
        }
    );
    assert_eq!(accounts[2].data, Vec::<u8>::new());
    assert_eq!(accounts[2].owner, PROGRAM);
    assert_eq!(accounts[2].key, whitelist.key);
    assert_eq!(&accounts[..2], &admin_accounts[..2]);
    assert_eq!(&accounts[3..6], &admin_accounts[3..6]);
}

#[test]
fn close_whitelist_invalid_vault_admin_fails() {
    let config = initialized_config();
    let vault = vault_account(3, VAULT_ADMIN);
    let whitelist = initialized_whitelist(&config, &vault, [0; 32]);
    let mut accounts = vec![
        config,
        vault_config_account(),
        whitelist,
        vault,
        signer(OTHER_ADMIN),
        plain(VAULT_PROGRAM),
        plain(SYSTEM_PROGRAM_ID),
    ];
    let before = accounts.clone();
    assert_eq!(
        process_close_whitelist(&PROGRAM, &VAULT_PROGRAM, &mut accounts),
        Err(ProgramError::Custom(1005))
    );
    assert_eq!(accounts, before);
}

#[test]
fn closed_whitelist_refuses_every_operation() {
    let config = initialized_config();
    let vault = vault_account(3, VAULT_ADMIN);
    let list = members();
    let tree = GeneratedMerkleTree::new(&list).unwrap();
    let whitelist = initialized_whitelist(&config, &vault, tree.merkle_root);
    let proof = GeneratedMerkleTree::get_proof(&list, &DEPOSITOR).unwrap();
    let mut accounts = vec![
        config.clone(),
        vault_config_account(),
        whitelist,
        vault.clone(),
        signer(VAULT_ADMIN),
        plain(VAULT_PROGRAM),
        plain(SYSTEM_PROGRAM_ID),
    ];
    process_close_whitelist(&PROGRAM, &VAULT_PROGRAM, &mut accounts).unwrap();
    let closed = accounts[2].clone();

    assert_eq!(
        process_close_whitelist(&PROGRAM, &VAULT_PROGRAM, &mut accounts),
        Err(ProgramError::InvalidAccountData)
    );
    assert_eq!(
        process_set_mint_burn_admin(&PROGRAM, &VAULT_PROGRAM, &accounts[..6]),
        Err(ProgramError::InvalidAccountData)
    );
    let mut again = vec![
        config.clone(),
        closed.clone(),
        vault.clone(),
        signer(VAULT_ADMIN),
        plain(SYSTEM_PROGRAM_ID),
    ];
    assert_eq!(
        process_initialize_whitelist(&PROGRAM, &VAULT_PROGRAM, &mut again, &[1; 32]),
        Err(ProgramError::InvalidAccountOwner)
    );
    let mut rotate = vec![config.clone(), vault.clone(), closed.clone(), signer(VAULT_ADMIN)];
    assert_eq!(
        process_set_meta_merkle_root(&PROGRAM, &VAULT_PROGRAM, &mut rotate, &[1; 32]),
        Err(ProgramError::InvalidAccountData)
    );
    let mut add = membership_accounts(
        &config,
        &vault,
        &closed,
        plain(user_record_address(&closed.key, &DEPOSITOR)),
        signer(VAULT_ADMIN),
        DEPOSITOR,
    );
    assert_eq!(
        process_add_to_whitelist(&PROGRAM, &VAULT_PROGRAM, &mut add),
        Err(ProgramError::InvalidAccountData)
    );
    assert_eq!(
        process_remove_from_whitelist(&PROGRAM, &VAULT_PROGRAM, &mut add),
        Err(ProgramError::InvalidAccountData)
    );
    let mint = mint_accounts(&config, &vault, &closed, signer(DEPOSITOR));
    assert_eq!(
        process_mint(&PROGRAM, &VAULT_PROGRAM, &mint, Some(proof.clone()), 1, 1),
        Err(ProgramError::InvalidAccountData)
    );
    let enqueue = enqueue_accounts(&config, &vault, &closed, signer(DEPOSITOR));
    assert_eq!(
        process_enqueue_withdrawal(&PROGRAM, &VAULT_PROGRAM, &enqueue, Some(proof.clone()), 1),
        Err(ProgramError::InvalidAccountData)
    );
    let burn = burn_accounts(&config, &vault, &closed, signer(DEPOSITOR));
    assert_eq!(
        process_burn_withdrawal_ticket(&PROGRAM, &VAULT_PROGRAM, &burn, Some(proof)),
        Err(ProgramError::InvalidAccountData)
    );
}

#[test]
fn instruction_bytes_are_dispatched_under_the_programs_own_address() {
    let deployment = Deployment { program_id: PROGRAM, vault_program_id: VAULT_PROGRAM };
    let fresh =
        vec![plain(config_address()), signer(ADMIN), plain(VAULT_PROGRAM), plain(SYSTEM_PROGRAM_ID)];
    let mut accounts = fresh.clone();
    assert_eq!(
        process_instruction(&deployment, &[8; 32], &mut accounts, &[0]),
        Err(ProgramError::IncorrectProgramId)
    );
    assert_eq!(
        process_instruction(&deployment, &PROGRAM, &mut accounts, &[]),
        Err(ProgramError::BorshIoError)
    );
    assert_eq!(
        process_instruction(&deployment, &PROGRAM, &mut accounts, &[0, 0]),
        Err(ProgramError::BorshIoError)
    );
    assert_eq!(
        process_instruction(&deployment, &PROGRAM, &mut accounts, &[10]),
        Err(ProgramError::BorshIoError)
    );
    assert_eq!(accounts, fresh);
    assert_eq!(process_instruction(&deployment, &PROGRAM, &mut accounts, &[0]), Ok(None));
    assert_eq!(accounts[0], initialized_config());

    let config = accounts.remove(0);
    let vault = vault_account(3, VAULT_ADMIN);
    let list = members();
    let tree = GeneratedMerkleTree::new(&list).unwrap();
    let mut data = vec![1u8];
    data.extend_from_slice(&tree.merkle_root);
    let mut accounts = vec![
        config.clone(),
        plain(whitelist_address(&vault.key)),
        vault.clone(),
        signer(VAULT_ADMIN),
        plain(SYSTEM_PROGRAM_ID),
    ];
    assert_eq!(process_instruction(&deployment, &PROGRAM, &mut accounts, &data), Ok(None));
    let whitelist = accounts.remove(1);
    assert_eq!(whitelist, initialized_whitelist(&config, &vault, tree.merkle_root));

    let proof = GeneratedMerkleTree::get_proof(&list, &DEPOSITOR).unwrap();
    let instruction = VaultWhitelistInstruction::Mint {
        proof: Some(proof.clone()),
        amount_in: 1000,
        min_amount_out: 90000,
    };
    let data = instruction.try_to_vec().unwrap();
    let mut accounts = mint_accounts(&config, &vault, &whitelist, signer(DEPOSITOR));
    let expected =
        process_mint(&PROGRAM, &VAULT_PROGRAM, &accounts, Some(proof), 1000, 90000).unwrap();
    assert_eq!(
        process_instruction(&deployment, &PROGRAM, &mut accounts, &data),
        Ok(Some(expected.clone()))
    );
    assert_eq!(dispatch(&PROGRAM, &VAULT_PROGRAM, &mut accounts, instruction), Ok(Some(expected)));
}
