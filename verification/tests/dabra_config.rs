use governance::account::{AccountInfoIter, AccountMeta};
use governance::error::{GovernanceError, ProgramError};
use governance::pubkey::Pubkey;
use governance::state::dabra::{DabraConfig, DabraConfigArgs, DabraV2, GoverningTokenConfigArgs};
use governance::state::dabra_config::{
    get_dabra_config_address, get_dabra_config_address_seeds, get_dabra_config_data,
    get_dabra_config_data_for_dabra,
    resolve_governing_token_config, try_get_dabra_config_data_for_dabra, DabraConfigAccount,
    DabraConfigWrite, GoverningTokenConfig, GoverningTokenType, Reserved110,
};
use governance::state::enums::{GovernanceAccountType, MintMaxVoterWeightSource, SetConfigItemActionType};

fn key(n: u8) -> Pubkey {
    Pubkey::new_from_array([n; 32])
}

fn gov(e: GovernanceError) -> ProgramError {
    ProgramError::Governance(e)
}

fn token_config(t: GoverningTokenType, locks: Vec<Pubkey>) -> GoverningTokenConfig {
    GoverningTokenConfig {
        voter_weight_addin: Some(key(50)),
        max_voter_weight_addin: Some(key(51)),
        token_type: t,
        reserved: [0; 4],
        lock_authorities: locks,
    }
}

fn config(community: GoverningTokenType, council: GoverningTokenType) -> DabraConfigAccount {
    DabraConfigAccount {
        account_type: GovernanceAccountType::DabraConfig,
        dabra: key(4),
        community_token_config: token_config(community, vec![]),
        council_token_config: token_config(council, vec![]),
        reserved: Reserved110::default(),
    }
}

fn dabra() -> DabraV2 {
    DabraV2 {
        account_type: GovernanceAccountType::DabraV2,
        community_mint: key(1),
        config: DabraConfig {
            legacy1: 0,
            legacy2: 0,
            reserved: [0; 6],
            min_community_weight_to_create_governance: 10,
            community_mint_max_voter_weight_source: MintMaxVoterWeightSource::Absolute(100),
            council_mint: Some(key(2)),
        },
        reserved: [0; 6],
        legacy1: 0,
        authority: Some(key(3)),
        name: "test-dabra".to_string(),
        reserved_v2: [0; 128],
    }
}

fn token_config_size(c: &GoverningTokenConfig) -> usize {
    borsh::to_vec(&c.voter_weight_addin.map(|k| k.to_bytes())).unwrap().len()
        + borsh::to_vec(&c.max_voter_weight_addin.map(|k| k.to_bytes())).unwrap().len()
        + borsh::to_vec(&0u8).unwrap().len()
        + borsh::to_vec(&c.reserved).unwrap().len()
        + borsh::to_vec(&c.lock_authorities.iter().map(|k| k.to_bytes()).collect::<Vec<_>>())
            .unwrap()
            .len()
}

fn account_size(c: &DabraConfigAccount) -> usize {
    borsh::to_vec(&11u8).unwrap().len()
        + borsh::to_vec(&c.dabra.to_bytes()).unwrap().len()
        + token_config_size(&c.community_token_config)
        + token_config_size(&c.council_token_config)
        + borsh::to_vec(&c.reserved.reserved.to_vec()).unwrap().len()
        - 4
}

#[test]
fn realm_config_test_max_size() {
    let dabra_config = config(GoverningTokenType::Liquid, GoverningTokenType::Liquid);
    let size = account_size(&dabra_config);
    assert_eq!(dabra_config.get_max_size(), Some(size));
}

#[test]
fn test_max_size_with_lock_authorities() {
    let mut dabra_config = config(GoverningTokenType::Liquid, GoverningTokenType::Liquid);
    dabra_config.community_token_config.lock_authorities = vec![key(60)];
    dabra_config.council_token_config.lock_authorities = vec![key(61), key(62)];
    let size = account_size(&dabra_config);
    assert_eq!(dabra_config.get_max_size(), Some(size));
    assert_eq!(size, 293 + 3 * 32);
}

#[test]
fn test_dabra_config_is_initialized() {
    let mut c = config(GoverningTokenType::Liquid, GoverningTokenType::Liquid);
    assert!(c.is_initialized());
    c.account_type = GovernanceAccountType::DabraV2;
    assert!(!c.is_initialized());
}

#[test]
fn test_get_token_config() {
    let c = config(GoverningTokenType::Membership, GoverningTokenType::Dormant);
    let d = dabra();
    assert_eq!(c.get_token_config(&d, &key(1)).unwrap().token_type, GoverningTokenType::Membership);
    assert_eq!(c.get_token_config(&d, &key(2)).unwrap().token_type, GoverningTokenType::Dormant);
    assert_eq!(
        c.get_token_config(&d, &key(9)).err(),
        Some(gov(GovernanceError::InvalidGoverningTokenMint))
    );
}

#[test]
fn test_get_token_config_mut() {
    let mut c = config(GoverningTokenType::Liquid, GoverningTokenType::Liquid);
    let d = dabra();
    c.get_token_config_mut(&d, &key(2)).unwrap().token_type = GoverningTokenType::Membership;
    assert_eq!(c.council_token_config.token_type, GoverningTokenType::Membership);
    assert_eq!(c.community_token_config.token_type, GoverningTokenType::Liquid);
    assert_eq!(
        c.get_token_config_mut(&d, &key(9)).err(),
        Some(gov(GovernanceError::InvalidGoverningTokenMint))
    );
}

#[test]
fn test_token_type_rights() {
    let d = dabra();
    let types = [GoverningTokenType::Liquid, GoverningTokenType::Membership, GoverningTokenType::Dormant];
    for t in types {
        let c = config(t, t);
        let revoke = c.assert_can_revoke_governing_token(&d, &key(1));
        let deposit = c.assert_can_deposit_governing_token(&d, &key(1));
        let withdraw = c.assert_can_withdraw_governing_token(&d, &key(2));
        match t {
            GoverningTokenType::Liquid => {
                assert_eq!(revoke, Err(gov(GovernanceError::CannotRevokeGoverningTokens)));
                assert_eq!(deposit, Ok(()));
                assert_eq!(withdraw, Ok(()));
            }
            GoverningTokenType::Membership => {
                assert_eq!(revoke, Ok(()));
                assert_eq!(deposit, Ok(()));
                assert_eq!(withdraw, Err(gov(GovernanceError::CannotWithdrawMembershipTokens)));
            }
            GoverningTokenType::Dormant => {
                assert_eq!(revoke, Err(gov(GovernanceError::CannotRevokeGoverningTokens)));
                assert_eq!(deposit, Err(gov(GovernanceError::CannotDepositDormantTokens)));
                assert_eq!(withdraw, Ok(()));
            }
        }
        assert_eq!(
            c.assert_can_withdraw_governing_token(&d, &key(9)),
            Err(gov(GovernanceError::InvalidGoverningTokenMint))
        );
    }
}

fn args(community: GoverningTokenType) -> DabraConfigArgs {
    DabraConfigArgs {
        use_council_mint: false,
        min_community_weight_to_create_governance: 1,
        community_mint_max_voter_weight_source: MintMaxVoterWeightSource::Absolute(1),
        community_token_config_args: GoverningTokenConfigArgs {
            use_voter_weight_addin: false,
            use_max_voter_weight_addin: false,
            token_type: community,
        },
        council_token_config_args: GoverningTokenConfigArgs::default(),
    }
}

#[test]
fn test_assert_can_change_config() {
    let liquid = config(GoverningTokenType::Liquid, GoverningTokenType::Liquid);
    assert_eq!(
        liquid.assert_can_change_config(&args(GoverningTokenType::Membership)),
        Err(gov(GovernanceError::CannotChangeCommunityTokenTypeToMembership))
    );
    assert_eq!(liquid.assert_can_change_config(&args(GoverningTokenType::Dormant)), Ok(()));
    let membership = config(GoverningTokenType::Membership, GoverningTokenType::Liquid);
    assert_eq!(membership.assert_can_change_config(&args(GoverningTokenType::Membership)), Ok(()));
    assert_eq!(membership.assert_can_change_config(&args(GoverningTokenType::Liquid)), Ok(()));
}

#[test]
fn test_serialize_write() {
    let c = config(GoverningTokenType::Liquid, GoverningTokenType::Liquid);
    assert_eq!(c.serialize(true, 0), DabraConfigWrite::Create);
    assert_eq!(c.serialize(false, 292), DabraConfigWrite::ExtendAndWrite(293));
    assert_eq!(c.serialize(false, 293), DabraConfigWrite::Write);
    assert_eq!(c.serialize(false, 400), DabraConfigWrite::Write);
}

#[test]
fn test_get_dabra_config_address() {
    let program_id = key(200);
    assert_eq!(get_dabra_config_address_seeds(&key(4)), vec![b"dabra-config".to_vec(), vec![4u8; 32]]);
    let (expected, _) = solana_program::pubkey::Pubkey::find_program_address(
        &[b"dabra-config", &[4u8; 32]],
        &solana_program::pubkey::Pubkey::new_from_array(program_id.to_bytes()),
    );
    assert_eq!(get_dabra_config_address(&program_id, &key(4)).to_bytes(), expected.to_bytes());
}

#[test]
fn test_get_dabra_config_data_for_dabra() {
    let program_id = key(200);
    let address = get_dabra_config_address(&program_id, &key(4));
    let none = || Err(ProgramError::BorshIoError);
    let default = get_dabra_config_data_for_dabra(&program_id, &address, &key(0), &vec![], none(), &key(4)).unwrap();
    assert_eq!(default.account_type, GovernanceAccountType::DabraConfig);
    assert_eq!(default.dabra, key(4));
    assert_eq!(default.community_token_config.token_type, GoverningTokenType::Liquid);
    assert_eq!(default.council_token_config.voter_weight_addin, None);
    assert!(default.council_token_config.lock_authorities.is_empty());
    assert_eq!(
        get_dabra_config_data_for_dabra(&program_id, &key(7), &key(0), &vec![], none(), &key(4)).err(),
        Some(gov(GovernanceError::InvalidDabraConfigAddress))
    );
    let existing = config(GoverningTokenType::Dormant, GoverningTokenType::Liquid);
    let data = vec![11u8, 4];
    let read = get_dabra_config_data_for_dabra(&program_id, &key(7), &program_id, &data, Ok(existing.clone()), &key(4)).unwrap();
    assert_eq!(read.community_token_config.token_type, GoverningTokenType::Dormant);
    assert_eq!(
        get_dabra_config_data_for_dabra(&program_id, &key(7), &program_id, &data, Ok(existing.clone()), &key(5)).err(),
        Some(gov(GovernanceError::InvalidDabraConfigForDabra))
    );
    assert_eq!(
        get_dabra_config_data_for_dabra(&program_id, &key(7), &key(8), &data, Ok(existing.clone()), &key(4)).err(),
        Some(ProgramError::InvalidAccountOwner)
    );
    let mut uninitialized = existing;
    uninitialized.account_type = GovernanceAccountType::Uninitialized;
    assert_eq!(
        get_dabra_config_data(&program_id, &key(7), &program_id, &data, Ok(uninitialized)).err(),
        Some(ProgramError::UninitializedAccount)
    );
    assert!(matches!(
        try_get_dabra_config_data_for_dabra(&program_id, &address, &key(0), &vec![], none(), &key(4)),
        Some(Ok(_))
    ));
}

fn metas(n: u8) -> Vec<AccountMeta> {
    (0..n).map(|i| AccountMeta { key: key(100 + i), is_signer: false }).collect()
}

#[test]
fn test_resolve_governing_token_config() {
    let mut iter = AccountInfoIter::new(metas(3));
    let a = GoverningTokenConfigArgs {
        use_voter_weight_addin: true,
        use_max_voter_weight_addin: true,
        token_type: GoverningTokenType::Dormant,
    };
    let existing = token_config(GoverningTokenType::Liquid, vec![key(70)]);
    let c = resolve_governing_token_config(&mut iter, &a, Some(existing)).unwrap();
    assert_eq!(c.voter_weight_addin, Some(key(100)));
    assert_eq!(c.max_voter_weight_addin, Some(key(101)));
    assert_eq!(c.token_type, GoverningTokenType::Dormant);
    assert_eq!(c.lock_authorities, vec![key(70)]);
    assert_eq!(iter.pos, 2);
    let only_max = GoverningTokenConfigArgs {
        use_voter_weight_addin: false,
        use_max_voter_weight_addin: true,
        token_type: GoverningTokenType::Liquid,
    };
    let c = resolve_governing_token_config(&mut iter, &only_max, None).unwrap();
    assert_eq!(c.voter_weight_addin, None);
    assert_eq!(c.max_voter_weight_addin, Some(key(102)));
    assert!(c.lock_authorities.is_empty());
    assert_eq!(
        resolve_governing_token_config(&mut iter, &only_max, None).err(),
        Some(ProgramError::NotEnoughAccountKeys)
    );
}

#[test]
fn test_set_lock_authority() {
    let mut c = token_config(GoverningTokenType::Liquid, vec![key(60)]);
    assert_eq!(c.set_lock_authority(SetConfigItemActionType::Add, &key(61)), Ok(()));
    assert_eq!(c.lock_authorities, vec![key(60), key(61)]);
    assert_eq!(
        c.set_lock_authority(SetConfigItemActionType::Add, &key(60)),
        Err(gov(GovernanceError::TokenOwnerRecordLockAuthorityAlreadyExists))
    );
    assert_eq!(c.set_lock_authority(SetConfigItemActionType::Remove, &key(60)), Ok(()));
    assert_eq!(c.lock_authorities, vec![key(61)]);
    assert_eq!(
        c.set_lock_authority(SetConfigItemActionType::Remove, &key(60)),
        Err(gov(GovernanceError::TokenOwnerRecordLockAuthorityNotFound))
    );
    assert_eq!(c.lock_authorities, vec![key(61)]);
}

#[test]
fn test_default_governing_token_type() {
    assert_eq!(GoverningTokenType::default(), GoverningTokenType::Liquid);
    let c = GoverningTokenConfig::default();
    assert_eq!(c.token_type, GoverningTokenType::Liquid);
    assert_eq!(c.reserved, [0; 4]);
}
