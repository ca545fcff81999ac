use governance::account::AccountMeta;
use governance::error::{GovernanceError, ProgramError};
use governance::processor::process_create_dabra::{process_create_dabra, CreateDabraAction};
use governance::processor::process_set_dabra_authority::process_set_dabra_authority;
use governance::processor::process_set_dabra_config_item::process_set_dabra_config_item;
use governance::pubkey::Pubkey;
use governance::state::dabra::{
    get_dabra_data_for_authority, DabraConfig, DabraConfigArgs, DabraV2, GoverningTokenConfigArgs, SetDabraAuthorityAction,
    SetDabraConfigItemArgs,
};
use governance::state::enums::MintMaxVoterWeightSource;
use governance::state::token_owner_record::{remove_lock, upsert_lock, TokenOwnerRecordLock};
use governance::state::dabra_config::{DabraConfigAccount, GoverningTokenConfig, GoverningTokenType, Reserved110};
use governance::state::enums::{GovernanceAccountType, SetConfigItemActionType};

fn key(n: u8) -> Pubkey {
    Pubkey::new_from_array([n; 32])
}

fn token_config(locks: Vec<Pubkey>) -> GoverningTokenConfig {
    GoverningTokenConfig {
        voter_weight_addin: None,
        max_voter_weight_addin: Some(key(9)),
        token_type: GoverningTokenType::Membership,
        reserved: [0; 4],
        lock_authorities: locks,
    }
}

#[test]
fn test_add_then_remove_lock_authority_restores() {
    let before = vec![key(1), key(2), key(3)];
    let mut c = token_config(before.clone());
    c.set_lock_authority(SetConfigItemActionType::Add, &key(4)).unwrap();
    assert!(c.set_lock_authority(SetConfigItemActionType::Add, &key(4)).is_err());
    c.set_lock_authority(SetConfigItemActionType::Remove, &key(4)).unwrap();
    assert_eq!(c.lock_authorities, before);
    assert_eq!(c.max_voter_weight_addin, Some(key(9)));
    assert_eq!(c.token_type, GoverningTokenType::Membership);
}

#[test]
fn test_lock_authority_changes_config_size() {
    let mut account = DabraConfigAccount {
        account_type: GovernanceAccountType::DabraConfig,
        dabra: key(7),
        community_token_config: token_config(vec![key(1)]),
        council_token_config: token_config(vec![]),
        reserved: Reserved110::default(),
    };
    let before = account.get_max_size().unwrap();
    account.council_token_config.set_lock_authority(SetConfigItemActionType::Add, &key(5)).unwrap();
    let after = account.get_max_size().unwrap();
    assert_eq!(after, before + 32);
    assert_eq!(
        account.serialize(false, before),
        governance::state::dabra_config::DabraConfigWrite::ExtendAndWrite(after)
    );
    account.community_token_config.set_lock_authority(SetConfigItemActionType::Remove, &key(1)).unwrap();
    assert_eq!(account.get_max_size().unwrap(), before);
}

fn meta(n: u8, signer: bool) -> AccountMeta {
    AccountMeta { key: key(n), is_signer: signer }
}

fn dabra_with_authority(authority: u8) -> DabraV2 {
    DabraV2 {
        account_type: GovernanceAccountType::DabraV2,
        community_mint: key(1),
        config: DabraConfig {
            legacy1: 0,
            legacy2: 0,
            reserved: [0; 6],
            min_community_weight_to_create_governance: 1,
            community_mint_max_voter_weight_source: MintMaxVoterWeightSource::full_supply_fraction(),
            council_mint: Some(key(2)),
        },
        reserved: [0; 6],
        legacy1: 0,
        authority: Some(key(authority)),
        name: "Law".to_string(),
        reserved_v2: [0; 128],
    }
}

#[test]
fn test_removed_authority_is_final() {
    let accounts = vec![meta(10, false), meta(3, true)];
    let d = process_set_dabra_authority(accounts.clone(), SetDabraAuthorityAction::Remove, Ok(dabra_with_authority(3)), Ok(()))
        .unwrap();
    assert_eq!(d.authority, None);
    let no_authority = Some(ProgramError::Governance(GovernanceError::DabraHasNoAuthority));
    let again = vec![meta(10, false), meta(3, true), meta(4, false)];
    assert_eq!(
        process_set_dabra_authority(again, SetDabraAuthorityAction::SetUnchecked, Ok(d.clone()), Ok(())).err(),
        no_authority
    );
    let config = DabraConfigAccount {
        account_type: GovernanceAccountType::DabraConfig,
        dabra: key(10),
        community_token_config: token_config(vec![]),
        council_token_config: token_config(vec![]),
        reserved: Reserved110::default(),
    };
    let item = SetDabraConfigItemArgs::TokenOwnerRecordLockAuthority {
        action: SetConfigItemActionType::Add,
        governing_token_mint: key(1),
        authority: key(5),
    };
    let item_accounts = vec![meta(10, false), meta(11, false), meta(3, true), meta(12, true), meta(13, false)];
    assert_eq!(process_set_dabra_config_item(item_accounts, item, Ok(d), Ok(config)).err(), no_authority);
}

#[test]
fn test_new_authority_takes_over() {
    let accounts = vec![meta(10, false), meta(3, true), meta(4, false)];
    let old = dabra_with_authority(3);
    let d = process_set_dabra_authority(accounts, SetDabraAuthorityAction::SetUnchecked, Ok(old.clone()), Ok(())).unwrap();
    assert_eq!(d.authority, Some(key(4)));
    assert_eq!(d.name, old.name);
    assert_eq!(d.community_mint, old.community_mint);
    let by_new = vec![meta(10, false), meta(4, true), meta(5, false)];
    assert_eq!(
        process_set_dabra_authority(by_new, SetDabraAuthorityAction::SetUnchecked, Ok(d.clone()), Ok(())).unwrap().authority,
        Some(key(5))
    );
    let by_old = vec![meta(10, false), meta(3, true), meta(5, false)];
    assert_eq!(
        process_set_dabra_authority(by_old, SetDabraAuthorityAction::SetUnchecked, Ok(d), Ok(())).err(),
        Some(ProgramError::Governance(GovernanceError::InvalidAuthorityForDabra))
    );
}

#[test]
fn test_relinquish_removes_set_lock() {
    let mut locks = vec![
        TokenOwnerRecordLock { lock_id: 1, authority: key(60), expiry: None },
        TokenOwnerRecordLock { lock_id: 2, authority: key(60), expiry: Some(50) },
    ];
    upsert_lock(&mut locks, TokenOwnerRecordLock { lock_id: 2, authority: key(60), expiry: Some(90) });
    assert_eq!(locks.len(), 2);
    remove_lock(&mut locks, 2, &key(60)).unwrap();
    assert!(locks.iter().all(|l| !(l.lock_id == 2 && l.authority == key(60))));
    assert_eq!(locks.len(), 1);
    assert_eq!(
        remove_lock(&mut locks, 2, &key(60)).err(),
        Some(ProgramError::Governance(GovernanceError::TokenOwnerRecordLockNotFound))
    );
}

#[test]
fn test_created_dabra_is_governed_by_its_authority() {
    let mut accounts: Vec<AccountMeta> = (0..8).map(|i| meta(20 + i, i == 4)).collect();
    accounts[1] = meta(3, false);
    accounts[2] = meta(1, false);
    accounts.push(meta(2, false));
    accounts.push(meta(30, false));
    accounts.push(meta(31, false));
    let args = DabraConfigArgs {
        use_council_mint: true,
        min_community_weight_to_create_governance: 1,
        community_mint_max_voter_weight_source: MintMaxVoterWeightSource::full_supply_fraction(),
        community_token_config_args: GoverningTokenConfigArgs::default(),
        council_token_config_args: GoverningTokenConfigArgs::default(),
    };
    let plan = process_create_dabra(accounts, "New".to_string(), args, true, Ok(()));
    assert_eq!(plan.result, Ok(()));
    let d = match plan.actions.into_iter().last() {
        Some(CreateDabraAction::CreateDabra { data, .. }) => data,
        _ => panic!("the Dabra account is created last"),
    };
    assert!(d.is_initialized());
    assert!(d.assert_is_valid_governing_token_mint(&key(1)).is_ok());
    assert!(d.assert_is_valid_governing_token_mint(&key(2)).is_ok());
    assert!(get_dabra_data_for_authority(d.clone(), &key(3)).is_ok());
    assert_eq!(
        get_dabra_data_for_authority(d, &key(4)).err(),
        Some(ProgramError::Governance(GovernanceError::InvalidAuthorityForDabra))
    );
}
