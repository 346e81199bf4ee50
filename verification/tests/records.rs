use solana_program::account_info::AccountInfo;
use solana_program::pubkey::Pubkey;
use vault_whitelist::account::{
    load_signer, load_system_account, load_system_program, same_key, Account, SYSTEM_PROGRAM_ID,
};
use vault_whitelist::config::{Config, CONFIG_DISCRIMINATOR};
use vault_whitelist::discriminator::VaultWhitelistDiscriminator;
use vault_whitelist::error::{ProgramError, VaultWhitelistError};
use vault_whitelist::record::{
    account_space, decode_record, encode_record, RecordFields, ACCOUNT_LEN, RECORD_LEN,
    RESERVED_SPACE_LEN,
};
use vault_whitelist::vault::{check_admin, check_vault_admin, check_vault_config, report_verdict};
use vault_whitelist::whitelist::{Whitelist, WHITELIST_DISCRIMINATOR};
use vault_whitelist::whitelist_user::{WhitelistUser, WHITELIST_USER_DISCRIMINATOR};

const PROGRAM: [u8; 32] = [7; 32];

fn account(key: [u8; 32], owner: [u8; 32], data: Vec<u8>) -> Account {
    Account { key, owner, is_signer: false, is_writable: true, data }
}

#[test]
fn test_config_no_padding() {
    let config = std::mem::size_of::<Config>();
    let sum_of_fields = std::mem::size_of::<[u8; 32]>() + // admin
        std::mem::size_of::<[u8; 32]>() + // vault_program
        std::mem::size_of::<u8>() + // bump
        RESERVED_SPACE_LEN; // reserved
    assert_eq!(config, sum_of_fields);
    assert_eq!(config, RECORD_LEN);
}

#[test]
fn test_whitelist_no_padding() {
    let whitelist = std::mem::size_of::<Whitelist>();
    let sum_of_fields = std::mem::size_of::<[u8; 32]>() + // vault
        std::mem::size_of::<[u8; 32]>() + // meta_merkle_root
        std::mem::size_of::<u8>() + // bump
        RESERVED_SPACE_LEN; // reserved
    assert_eq!(whitelist, sum_of_fields);
    assert_eq!(std::mem::size_of::<WhitelistUser>(), sum_of_fields);
}

#[test]
fn discriminators_are_zero_one_two() {
    assert_eq!(VaultWhitelistDiscriminator::Config.value(), 0);
    assert_eq!(VaultWhitelistDiscriminator::Whitelist.value(), 1);
    assert_eq!(VaultWhitelistDiscriminator::WhitelistUser.value(), 2);
    assert_eq!(CONFIG_DISCRIMINATOR, 0);
    assert_eq!(WHITELIST_DISCRIMINATOR, 1);
    assert_eq!(WHITELIST_USER_DISCRIMINATOR, 2);
    assert_eq!(
        VaultWhitelistDiscriminator::from_value(1),
        Some(VaultWhitelistDiscriminator::Whitelist)
    );
    assert_eq!(VaultWhitelistDiscriminator::from_value(3), None);
}

#[test]
fn record_storage_has_header_fields_and_reserve() {
    let config = Config::new([1; 32], [2; 32], 250);
    let data = config.to_account_data();
    assert_eq!(data.len(), ACCOUNT_LEN);
    assert_eq!(data.len(), 336);
    assert_eq!(&data[..8], &[0u8, 0, 0, 0, 0, 0, 0, 0]);
    assert_eq!(&data[8..40], &[1u8; 32]);
    assert_eq!(&data[40..72], &[2u8; 32]);
    assert_eq!(data[72], 250);
    assert_eq!(&data[73..], &[0u8; 263]);
    assert_eq!(Config::try_from_slice_unchecked(&data), Ok(config));

    let whitelist = Whitelist::new([3; 32], [4; 32], 9);
    let data = whitelist.to_account_data();
    assert_eq!(data[0], 1);
    assert_eq!(&data[8..40], &[3u8; 32]);
    assert_eq!(&data[40..72], &[4u8; 32]);
    assert_eq!(Whitelist::try_from_slice_unchecked(&data), Ok(whitelist));

    let user = WhitelistUser::new([5; 32], [6; 32], 1);
    let data = user.to_account_data();
    assert_eq!(data[0], 2);
    assert_eq!(&data[8..40], &[5u8; 32]);
    assert_eq!(&data[40..72], &[6u8; 32]);
    assert_eq!(WhitelistUser::try_from_slice_unchecked(&data), Ok(user));
}

#[test]
fn record_of_the_wrong_kind_or_length_is_refused() {
    let data = Whitelist::new([3; 32], [4; 32], 9).to_account_data();
    assert_eq!(Config::try_from_slice_unchecked(&data), Err(ProgramError::InvalidAccountData));
    assert_eq!(
        WhitelistUser::try_from_slice_unchecked(&data),
        Err(ProgramError::InvalidAccountData)
    );
    assert_eq!(
        Whitelist::try_from_slice_unchecked(&data[..335]),
        Err(ProgramError::InvalidAccountData)
    );
    let mut longer = data.clone();
    longer.push(0);
    assert_eq!(Whitelist::try_from_slice_unchecked(&longer), Err(ProgramError::InvalidAccountData));
    assert_eq!(Whitelist::try_from_slice_unchecked(&[]), Err(ProgramError::InvalidAccountData));
    assert_eq!(Whitelist::try_from_slice_unchecked(&[1]), Err(ProgramError::InvalidAccountData));
}

#[test]
fn reserved_bytes_and_header_rest_survive_reading() {
    let mut reserved = [0u8; 263];
    reserved[0] = 9;
    reserved[262] = 8;
    let fields = RecordFields { first: [1; 32], second: [2; 32], bump: 3, reserved };
    let mut data = encode_record(1, &fields);
    data[5] = 77;
    let read = decode_record(1, &data).unwrap();
    assert_eq!(read.first, [1; 32]);
    assert_eq!(read.second, [2; 32]);
    assert_eq!(read.bump, 3);
    assert_eq!(read.reserved, reserved);
    assert!(decode_record(2, &data).is_err());
}

#[test]
fn root_is_replaced_in_place() {
    let mut whitelist = Whitelist::new([3; 32], [4; 32], 9);
    whitelist.set_meta_merkle_root(&[5; 32]);
    assert_eq!(whitelist, Whitelist::new([3; 32], [5; 32], 9));
}

#[test]
fn records_check_what_they_belong_to() {
    let whitelist = Whitelist::new([3; 32], [4; 32], 9);
    assert_eq!(whitelist.check_vault(&[3; 32]), Ok(()));
    assert_eq!(whitelist.check_vault(&[4; 32]), Err(VaultWhitelistError::InvalidVault));
    let user = WhitelistUser::new([5; 32], [6; 32], 1);
    assert_eq!(user.check_whitelist(&[5; 32]), Ok(()));
    assert_eq!(user.check_whitelist(&[6; 32]), Err(VaultWhitelistError::InvalidWhitelist));
    assert_eq!(user.check_user(&[6; 32]), Ok(()));
    assert_eq!(user.check_user(&[5; 32]), Err(VaultWhitelistError::InvalidWhitelistUser));
}

#[test]
fn seeds_are_the_namespace_and_the_addresses() {
    assert_eq!(Config::seeds(), vec![b"config".to_vec()]);
    assert_eq!(Whitelist::seeds(&[3; 32]), vec![b"whitelist".to_vec(), vec![3u8; 32]]);
    assert_eq!(
        WhitelistUser::seeds(&[3; 32], &[4; 32]),
        vec![b"whitelist_user".to_vec(), vec![3u8; 32], vec![4u8; 32]]
    );
}

#[test]
fn addresses_are_those_the_ledger_derives() {
    let program = Pubkey::new_from_array(PROGRAM);
    let (address, bump) = Pubkey::find_program_address(&[b"config"], &program);
    assert_eq!(
        Config::find_program_address(&PROGRAM),
        Some((address.to_bytes(), bump, vec![b"config".to_vec()]))
    );
    let vault = [3u8; 32];
    let (address, bump) = Pubkey::find_program_address(&[b"whitelist", &vault], &program);
    let found = Whitelist::find_program_address(&PROGRAM, &vault).unwrap();
    assert_eq!((found.0, found.1), (address.to_bytes(), bump));
    assert_ne!(found.0, vault);
    let user = [4u8; 32];
    let (address, bump) =
        Pubkey::find_program_address(&[b"whitelist_user", &found.0, &user], &program);
    let record = WhitelistUser::find_program_address(&PROGRAM, &found.0, &user).unwrap();
    assert_eq!((record.0, record.1), (address.to_bytes(), bump));
    assert_ne!(
        Whitelist::find_program_address(&PROGRAM, &[5; 32]).unwrap().0,
        Whitelist::find_program_address(&PROGRAM, &vault).unwrap().0
    );
}

#[test]
fn load_names_the_first_broken_condition() {
    let address = Config::find_program_address(&PROGRAM).unwrap().0;
    let data = Config::new([1; 32], [2; 32], 0).to_account_data();
    let good = account(address, PROGRAM, data.clone());
    assert_eq!(Config::load(&PROGRAM, &good, false), Ok(()));
    assert_eq!(Config::load(&PROGRAM, &good, true), Ok(()));
    let foreign = account(address, [8; 32], data.clone());
    assert_eq!(Config::load(&PROGRAM, &foreign, false), Err(ProgramError::InvalidAccountOwner));
    let empty = account(address, PROGRAM, vec![]);
    assert_eq!(Config::load(&PROGRAM, &empty, false), Err(ProgramError::InvalidAccountData));
    let mut frozen = good.clone();
    frozen.is_writable = false;
    assert_eq!(Config::load(&PROGRAM, &frozen, true), Err(ProgramError::InvalidAccountData));
    assert_eq!(Config::load(&PROGRAM, &frozen, false), Ok(()));
    let mut mistagged = good.clone();
    mistagged.data[0] = 1;
    assert_eq!(Config::load(&PROGRAM, &mistagged, false), Err(ProgramError::InvalidAccountData));
    let moved = account([9; 32], PROGRAM, data);
    assert_eq!(Config::load(&PROGRAM, &moved, false), Err(ProgramError::InvalidAccountData));

    let vault = [3u8; 32];
    let address = Whitelist::find_program_address(&PROGRAM, &vault).unwrap().0;
    let whitelist = account(address, PROGRAM, Whitelist::new(vault, [0; 32], 0).to_account_data());
    assert_eq!(Whitelist::load(&PROGRAM, &whitelist, &vault, true), Ok(()));
    assert_eq!(
        Whitelist::load(&PROGRAM, &whitelist, &[4; 32], true),
        Err(ProgramError::InvalidAccountData)
    );
    let user = [5u8; 32];
    let record_address = WhitelistUser::find_program_address(&PROGRAM, &address, &user).unwrap().0;
    let record = account(
        record_address,
        PROGRAM,
        WhitelistUser::new(address, user, 0).to_account_data(),
    );
    assert_eq!(WhitelistUser::load(&PROGRAM, &record, &address, &user, false), Ok(()));
    assert_eq!(
        WhitelistUser::load(&PROGRAM, &record, &address, &[6; 32], false),
        Err(ProgramError::InvalidAccountData)
    );
}

#[test]
fn plain_account_checks_name_the_first_broken_condition() {
    let mut info = account([1; 32], SYSTEM_PROGRAM_ID, vec![]);
    assert_eq!(load_signer(&info, false), Err(ProgramError::MissingRequiredSignature));
    info.is_signer = true;
    assert_eq!(load_signer(&info, true), Ok(()));
    info.is_writable = false;
    assert_eq!(load_signer(&info, true), Err(ProgramError::InvalidAccountData));
    assert_eq!(load_signer(&info, false), Ok(()));

    assert_eq!(load_system_program(&info), Err(ProgramError::IncorrectProgramId));
    assert_eq!(load_system_program(&account([0; 32], [5; 32], vec![1])), Ok(()));
    assert_eq!(
        SYSTEM_PROGRAM_ID,
        solana_program::system_program::id().to_bytes()
    );

    assert_eq!(load_system_account(&info, false), Ok(()));
    assert_eq!(load_system_account(&info, true), Err(ProgramError::InvalidAccountData));
    assert_eq!(
        load_system_account(&account([1; 32], [2; 32], vec![]), false),
        Err(ProgramError::InvalidAccountOwner)
    );
    assert_eq!(
        load_system_account(&account([1; 32], SYSTEM_PROGRAM_ID, vec![0]), false),
        Err(ProgramError::AccountAlreadyInitialized)
    );
    assert!(same_key(&[1; 32], &[1; 32]));
    assert!(!same_key(&[1; 32], &[2; 32]));
}

#[test]
fn vault_verdicts_are_reported_by_their_numbers() {
    assert_eq!(report_verdict(Ok(())), Ok(()));
    assert_eq!(report_verdict(Err(23 << 32)), Err(ProgramError::InvalidAccountOwner));
    assert_eq!(report_verdict(Err(1005)), Err(ProgramError::Custom(1005)));
    assert_eq!(check_admin(Ok([1; 32]), &[1; 32]), Ok(()));
    assert_eq!(check_admin(Ok([1; 32]), &[2; 32]), Err(ProgramError::Custom(1005)));
    assert_eq!(check_admin(Err(4 << 32), &[2; 32]), Err(ProgramError::InvalidAccountData));
}

#[test]
fn what_is_no_vault_is_refused_by_the_vaults_own_code() {
    let vault_program = [9u8; 32];
    let stranger = account([1; 32], [2; 32], vec![2; 800]);
    assert_eq!(
        check_vault_admin(&vault_program, &stranger, &[3; 32], false),
        Err(ProgramError::InvalidAccountOwner)
    );
    let untagged = account([1; 32], vault_program, vec![0; 800]);
    assert_eq!(
        check_vault_admin(&vault_program, &untagged, &[3; 32], false),
        Err(ProgramError::InvalidAccountData)
    );
    let short = account([1; 32], vault_program, vec![2; 5]);
    assert_eq!(
        check_vault_admin(&vault_program, &short, &[3; 32], false),
        Err(ProgramError::InvalidAccountData)
    );
    let truncated = account([1; 32], vault_program, vec![2; 100]);
    assert_eq!(
        check_vault_admin(&vault_program, &truncated, &[3; 32], false),
        Err(ProgramError::InvalidAccountData)
    );
    assert_eq!(
        check_vault_config(&vault_program, &stranger, false),
        Err(ProgramError::InvalidAccountOwner)
    );
    let mistagged = account([1; 32], vault_program, vec![2; 100]);
    assert_eq!(
        check_vault_config(&vault_program, &mistagged, false),
        Err(ProgramError::InvalidAccountData)
    );
}

#[test]
fn storage_is_header_and_record_unless_that_overflows() {
    assert_eq!(account_space(RECORD_LEN as u64), Ok(336));
    assert_eq!(account_space(0), Ok(8));
    assert_eq!(account_space(u64::MAX - 8), Ok(u64::MAX));
    assert_eq!(account_space(u64::MAX - 7), Err(VaultWhitelistError::ArithmeticOverflow));
    assert_eq!(account_space(u64::MAX), Err(VaultWhitelistError::ArithmeticOverflow));
}

fn ledger_verdict(
    account: &Account,
    check: impl Fn(&AccountInfo) -> Result<(), solana_program::program_error::ProgramError>,
) -> Result<(), ProgramError> {
    let key = Pubkey::new_from_array(account.key);
    let owner = Pubkey::new_from_array(account.owner);
    let mut lamports = 0u64;
    let mut data = account.data.clone();
    let info = AccountInfo::new(
        &key,
        account.is_signer,
        account.is_writable,
        &mut lamports,
        &mut data,
        &owner,
        false,
        0,
    );
    check(&info).map_err(|e| ProgramError::from_code(u64::from(e)))
}

#[test]
fn plain_account_checks_agree_with_the_ledgers_loaders() {
    for key in [[0u8; 32], [1u8; 32]] {
        for owner in [[0u8; 32], [2u8; 32]] {
            for data in [vec![], vec![0u8; 3]] {
                for flags in 0..8u8 {
                    let info = Account {
                        key,
                        owner,
                        is_signer: flags & 1 != 0,
                        is_writable: flags & 2 != 0,
                        data: data.clone(),
                    };
                    let expect = flags & 4 != 0;
                    assert_eq!(
                        load_signer(&info, expect),
                        ledger_verdict(&info, |i| jito_jsm_core::loader::load_signer(i, expect))
                    );
                    assert_eq!(
                        load_system_account(&info, expect),
                        ledger_verdict(&info, |i| {
                            jito_jsm_core::loader::load_system_account(i, expect)
                        })
                    );
                    assert_eq!(
                        load_system_program(&info),
                        ledger_verdict(&info, jito_jsm_core::loader::load_system_program)
                    );
                }
            }
        }
    }
}
