use governance::error::{GovernanceError, ProgramError};
use governance::pubkey::Pubkey;
use governance::state::dabra::{
    assert_is_valid_dabra, assert_valid_dabra_config_args, get_dabra_address,
    get_dabra_address_seeds, get_dabra_data, get_dabra_data_for_authority,
    get_dabra_data_for_governing_token_mint, get_governing_token_holding_address,
    get_governing_token_holding_address_seeds, is_dabra_account_type, try_get_dabra_address,
    DabraAccountLayout, DabraConfig, DabraConfigArgs, DabraV1, DabraV2,
    GoverningTokenConfigArgs,
};
use governance::state::dabra_config::GoverningTokenType;
use governance::state::enums::{GovernanceAccountType, MintMaxVoterWeightSource, VoteKind};

fn key(n: u8) -> Pubkey {
    Pubkey::new_from_array([n; 32])
}

fn sol(k: &Pubkey) -> solana_program::pubkey::Pubkey {
    solana_program::pubkey::Pubkey::new_from_array(k.to_bytes())
}

fn gov(e: GovernanceError) -> ProgramError {
    ProgramError::Governance(e)
}

fn dabra(council: Option<Pubkey>, authority: Option<Pubkey>) -> DabraV2 {
    DabraV2 {
        account_type: GovernanceAccountType::DabraV2,
        community_mint: key(1),
        config: DabraConfig {
            legacy1: 0,
            legacy2: 0,
            reserved: [0; 6],
            min_community_weight_to_create_governance: 10,
            community_mint_max_voter_weight_source: MintMaxVoterWeightSource::Absolute(100),
            council_mint: council,
        },
        reserved: [0; 6],
        legacy1: 0,
        authority,
        name: "test-dabra".to_string(),
        reserved_v2: [0; 128],
    }
}

fn config_args(source: MintMaxVoterWeightSource) -> DabraConfigArgs {
    DabraConfigArgs {
        use_council_mint: true,
        min_community_weight_to_create_governance: 100,
        community_mint_max_voter_weight_source: source,
        community_token_config_args: GoverningTokenConfigArgs::default(),
        council_token_config_args: GoverningTokenConfigArgs::default(),
    }
}

#[test]
fn realm_test_max_size() {
    let dabra = dabra(Some(key(2)), Some(key(3)));
    // The size of the account as the account's fields are laid out one after another.
    let fields: Vec<Vec<u8>> = vec![
        borsh::to_vec(&16u8).unwrap(),
        borsh::to_vec(&dabra.community_mint.to_bytes()).unwrap(),
        borsh::to_vec(&(0u8, 0u8, [0u8; 6], 10u64)).unwrap(),
        borsh::to_vec(&(1u8, 100u64)).unwrap(),
        borsh::to_vec(&Some(key(2).to_bytes())).unwrap(),
        borsh::to_vec(&[0u8; 6]).unwrap(),
        borsh::to_vec(&0u16).unwrap(),
        borsh::to_vec(&Some(key(3).to_bytes())).unwrap(),
        borsh::to_vec(&"test-dabra".to_string()).unwrap(),
        borsh::to_vec(&[0u8; 128].to_vec()).unwrap()[4..].to_vec(),
    ];
    let size: usize = fields.iter().map(|f| f.len()).sum();
    assert_eq!(dabra.get_max_size(), Some(size));
}

#[test]
fn test_max_size_counts_name_bytes() {
    let mut d = dabra(None, None);
    d.name = "é".to_string();
    assert_eq!(d.get_max_size(), Some(2 + 264));
}

#[test]
fn test_is_initialized() {
    let mut d = dabra(None, None);
    assert!(d.is_initialized());
    d.account_type = GovernanceAccountType::DabraV1;
    assert!(!d.is_initialized());
}

#[test]
fn test_is_dabra_account_type() {
    assert!(is_dabra_account_type(&GovernanceAccountType::DabraV1));
    assert!(is_dabra_account_type(&GovernanceAccountType::DabraV2));
    assert!(!is_dabra_account_type(&GovernanceAccountType::DabraConfig));
    assert!(!is_dabra_account_type(&GovernanceAccountType::GovernanceV2));
    assert!(!is_dabra_account_type(&GovernanceAccountType::Uninitialized));
    assert!(!is_dabra_account_type(&GovernanceAccountType::RequiredSignatory));
}

#[test]
fn test_assert_is_valid_governing_token_mint() {
    let d = dabra(Some(key(2)), None);
    assert_eq!(d.assert_is_valid_governing_token_mint(&key(1)), Ok(()));
    assert_eq!(d.assert_is_valid_governing_token_mint(&key(2)), Ok(()));
    assert_eq!(
        d.assert_is_valid_governing_token_mint(&key(9)),
        Err(gov(GovernanceError::InvalidGoverningTokenMint))
    );
    let no_council = dabra(None, None);
    assert_eq!(
        no_council.assert_is_valid_governing_token_mint(&key(2)),
        Err(gov(GovernanceError::InvalidGoverningTokenMint))
    );
}

#[test]
fn test_get_proposal_governing_token_mint_for_vote() {
    let d = dabra(Some(key(2)), None);
    assert_eq!(d.get_proposal_governing_token_mint_for_vote(&key(7), &VoteKind::Electorate), Ok(key(7)));
    assert_eq!(d.get_proposal_governing_token_mint_for_vote(&key(1), &VoteKind::Veto), Ok(key(2)));
    assert_eq!(d.get_proposal_governing_token_mint_for_vote(&key(2), &VoteKind::Veto), Ok(key(1)));
    assert_eq!(
        d.get_proposal_governing_token_mint_for_vote(&key(7), &VoteKind::Veto),
        Err(gov(GovernanceError::InvalidGoverningTokenMint))
    );
}

#[test]
fn test_get_dabra_address_seeds() {
    let seeds = get_dabra_address_seeds("abc");
    assert_eq!(seeds, vec![b"governance".to_vec(), b"abc".to_vec()]);
    let holding = get_governing_token_holding_address_seeds(&key(4), &key(5));
    assert_eq!(holding, vec![b"governance".to_vec(), vec![4u8; 32], vec![5u8; 32]]);
}

#[test]
fn test_get_dabra_address_is_program_derived_address() {
    let program_id = key(200);
    let (expected, _) = solana_program::pubkey::Pubkey::find_program_address(
        &[b"governance", b"test-dabra"],
        &sol(&program_id),
    );
    let address = get_dabra_address(&program_id, "test-dabra");
    assert_eq!(address.to_bytes(), expected.to_bytes());
    assert_ne!(address, program_id);
    assert_eq!(try_get_dabra_address(&program_id, "test-dabra"), Some(address));
}

#[test]
fn test_get_governing_token_holding_address_is_program_derived_address() {
    let program_id = key(200);
    let (expected, _) = solana_program::pubkey::Pubkey::find_program_address(
        &[b"governance", &[4u8; 32], &[5u8; 32]],
        &sol(&program_id),
    );
    let address = get_governing_token_holding_address(&program_id, &key(4), &key(5));
    assert_eq!(address.to_bytes(), expected.to_bytes());
}

#[test]
fn test_assert_is_valid_governing_token_mint_and_holding() {
    let program_id = key(200);
    let d = dabra(Some(key(2)), None);
    let holding = get_governing_token_holding_address(&program_id, &key(4), &key(2));
    assert_eq!(
        d.assert_is_valid_governing_token_mint_and_holding(&program_id, &key(4), &key(2), &holding),
        Ok(())
    );
    assert_eq!(
        d.assert_is_valid_governing_token_mint_and_holding(&program_id, &key(4), &key(1), &holding),
        Err(gov(GovernanceError::InvalidGoverningTokenHoldingAccount))
    );
    assert_eq!(
        d.assert_is_valid_governing_token_mint_and_holding(&program_id, &key(4), &key(9), &holding),
        Err(gov(GovernanceError::InvalidGoverningTokenMint))
    );
    assert_eq!(
        d.try_assert_is_valid_governing_token_mint_and_holding(
            &program_id,
            &key(4),
            &key(2),
            &holding
        ),
        Some(Ok(()))
    );
}

#[test]
fn test_assert_valid_dabra_config_args() {
    let cases = [
        (MintMaxVoterWeightSource::SupplyFraction(0), Err(gov(GovernanceError::InvalidMaxVoterWeightSupplyFraction))),
        (MintMaxVoterWeightSource::SupplyFraction(1), Ok(())),
        (MintMaxVoterWeightSource::SupplyFraction(10_000_000_000), Ok(())),
        (MintMaxVoterWeightSource::SupplyFraction(10_000_000_001), Err(gov(GovernanceError::InvalidMaxVoterWeightSupplyFraction))),
        (MintMaxVoterWeightSource::Absolute(0), Err(gov(GovernanceError::InvalidMaxVoterWeightAbsoluteValue))),
        (MintMaxVoterWeightSource::Absolute(1), Ok(())),
    ];
    for (source, expected) in cases {
        assert_eq!(assert_valid_dabra_config_args(&config_args(source)), expected);
    }
    assert_eq!(
        MintMaxVoterWeightSource::full_supply_fraction(),
        MintMaxVoterWeightSource::SupplyFraction(10_000_000_000)
    );
}

#[test]
fn test_get_dabra_data_for_authority() {
    assert_eq!(
        get_dabra_data_for_authority(dabra(None, None), &key(3)).err(),
        Some(gov(GovernanceError::DabraHasNoAuthority))
    );
    assert_eq!(
        get_dabra_data_for_authority(dabra(None, Some(key(3))), &key(8)).err(),
        Some(gov(GovernanceError::InvalidAuthorityForDabra))
    );
    let d = get_dabra_data_for_authority(dabra(None, Some(key(3))), &key(3)).unwrap();
    assert_eq!(d.authority, Some(key(3)));
    assert_eq!(d.name, "test-dabra");
}

#[test]
fn test_get_dabra_data_for_governing_token_mint() {
    assert!(get_dabra_data_for_governing_token_mint(dabra(None, None), &key(1)).is_ok());
    assert_eq!(
        get_dabra_data_for_governing_token_mint(dabra(None, None), &key(2)).err(),
        Some(gov(GovernanceError::InvalidGoverningTokenMint))
    );
}

fn dabra_v1() -> DabraV1 {
    let d = dabra(Some(key(2)), Some(key(3)));
    DabraV1 {
        account_type: GovernanceAccountType::DabraV1,
        community_mint: d.community_mint,
        config: d.config,
        reserved: [7; 6],
        voting_proposal_count: 5,
        authority: d.authority,
        name: d.name,
    }
}

fn read_v1(v1: DabraV1) -> DabraV2 {
    let program_id = key(200);
    get_dabra_data(&program_id, &key(9), &program_id, &vec![1, 0, 0], Ok(v1), Err(ProgramError::BorshIoError)).unwrap()
}

#[test]
fn test_get_dabra_data_translates_v1() {
    let v2 = read_v1(dabra_v1());
    assert_eq!(v2.account_type, GovernanceAccountType::DabraV1);
    assert_eq!(v2.legacy1, 0);
    assert_eq!(v2.reserved, [7; 6]);
    assert_eq!(v2.reserved_v2, [0; 128]);
    assert_eq!(v2.authority, Some(key(3)));
    assert_eq!(v2.config.council_mint, Some(key(2)));
    let program_id = key(200);
    let same = get_dabra_data(&program_id, &key(9), &program_id, &vec![16], Err(ProgramError::BorshIoError), Ok(dabra(None, None))).unwrap();
    assert_eq!(same.account_type, GovernanceAccountType::DabraV2);
}

#[test]
fn test_get_dabra_data_checks() {
    let program_id = key(200);
    let read = |owner: Pubkey, data: Vec<u8>, v2: DabraV2| {
        get_dabra_data(&program_id, &key(9), &owner, &data, Err(ProgramError::BorshIoError), Ok(v2)).err()
    };
    assert_eq!(read(program_id, vec![], dabra(None, None)), Some(ProgramError::AccountDoesNotExist));
    assert_eq!(read(key(5), vec![16], dabra(None, None)), Some(ProgramError::InvalidAccountOwner));
    assert_eq!(read(program_id, vec![77], dabra(None, None)), Some(ProgramError::BorshIoError));
    let mut uninitialized = dabra(None, None);
    uninitialized.account_type = GovernanceAccountType::Uninitialized;
    assert_eq!(read(program_id, vec![0], uninitialized), Some(ProgramError::UninitializedAccount));
    assert_eq!(
        get_dabra_data(&program_id, &key(9), &program_id, &vec![1], Err(ProgramError::BorshIoError), Ok(dabra(None, None))).err(),
        Some(ProgramError::BorshIoError)
    );
}

#[test]
fn test_serialize_layouts() {
    match dabra(None, None).serialize() {
        DabraAccountLayout::V2(d) => assert_eq!(d.name, "test-dabra"),
        _ => panic!("a current Dabra is written in the current layout"),
    }
    match read_v1(dabra_v1()).serialize() {
        DabraAccountLayout::V1(v1) => {
            assert_eq!(v1.voting_proposal_count, 0);
            assert_eq!(v1.reserved, [7; 6]);
            assert_eq!(v1.authority, Some(key(3)));
        }
        _ => panic!("a version 1 Dabra is written back in its layout"),
    }
    let mut other = dabra(None, None);
    other.account_type = GovernanceAccountType::GovernanceV2;
    assert!(matches!(other.serialize(), DabraAccountLayout::Unwritten));
}

#[test]
fn test_assert_is_valid_dabra() {
    let program_id = key(200);
    let a = key(9);
    assert_eq!(assert_is_valid_dabra(&program_id, &a, &program_id, &vec![]), Err(ProgramError::AccountDoesNotExist));
    assert_eq!(assert_is_valid_dabra(&program_id, &a, &key(5), &vec![16]), Err(ProgramError::InvalidAccountOwner));
    assert_eq!(assert_is_valid_dabra(&program_id, &a, &program_id, &vec![11, 0]), Err(ProgramError::InvalidAccountType));
    assert_eq!(assert_is_valid_dabra(&program_id, &a, &program_id, &vec![99]), Err(ProgramError::BorshIoError));
    assert_eq!(assert_is_valid_dabra(&program_id, &a, &program_id, &vec![1, 2, 3]), Ok(()));
    assert_eq!(assert_is_valid_dabra(&program_id, &a, &program_id, &vec![16]), Ok(()));
}

#[test]
fn test_assert_create_authority_can_create_governance() {
    let d = dabra(None, Some(key(3)));
    let tor_err = Err(gov(GovernanceError::NotEnoughTokensToCreateGovernance));
    assert!(d.is_dabra_authority(&key(3)));
    assert!(!d.is_dabra_authority(&key(4)));
    assert!(!dabra(None, None).is_dabra_authority(&key(3)));
    assert_eq!(d.assert_create_authority_can_create_governance(&key(3), true, tor_err), Ok(()));
    assert_eq!(
        d.assert_create_authority_can_create_governance(&key(3), false, Ok(())),
        Err(gov(GovernanceError::DabraAuthorityMustSign))
    );
    assert_eq!(d.assert_create_authority_can_create_governance(&key(4), false, Ok(())), Ok(()));
    assert_eq!(d.assert_create_authority_can_create_governance(&key(4), true, tor_err), tor_err);
}

#[test]
fn test_governing_token_config_args_default() {
    let a = GoverningTokenConfigArgs::default();
    assert!(!a.use_voter_weight_addin);
    assert!(!a.use_max_voter_weight_addin);
    assert_eq!(a.token_type, GoverningTokenType::Liquid);
}
