//! Enums shared by the program accounts.
use vstd::prelude::*;

verus! {

/// Type of a governance account, stored in its first byte.
#[derive(Clone, Copy, Debug, PartialEq, Eq, Structural)]
pub enum GovernanceAccountType {
    /// Default uninitialized account state
    Uninitialized,
    /// Top level aggregation for governances with Community Token (and optional Council Token)
    DabraV1,
    /// Token Owner Record for given governing token owner within a Dabra
    TokenOwnerRecordV1,
    /// Governance account
    GovernanceV1,
    /// Program Governance account
    ProgramGovernanceV1,
    /// Proposal account for Governance account
    ProposalV1,
    /// Proposal Signatory account
    SignatoryRecordV1,
    /// Vote record account for a given Proposal
    VoteRecordV1,
    /// ProposalInstruction account which holds an instruction to execute for Proposal
    ProposalInstructionV1,
    /// Mint Governance account
    MintGovernanceV1,
    /// Token Governance account
    TokenGovernanceV1,
    /// Dabra config account
    DabraConfig,
    /// Vote record account for a given Proposal
    VoteRecordV2,
    /// ProposalTransaction account which holds instructions to execute for Proposal
    ProposalTransactionV2,
    /// Proposal account for Governance account
    ProposalV2,
    /// Program metadata account
    ProgramMetadata,
    /// Top level aggregation for governances with Community Token (and optional Council Token)
    DabraV2,
    /// Token Owner Record for given governing token owner within a Dabra
    TokenOwnerRecordV2,
    /// Governance account
    GovernanceV2,
    /// Program Governance account
    ProgramGovernanceV2,
    /// Mint Governance account
    MintGovernanceV2,
    /// Token Governance account
    TokenGovernanceV2,
    /// Proposal Signatory account
    SignatoryRecordV2,
    /// Proposal deposit account
    ProposalDeposit,
    /// Required signatory account
    RequiredSignatory,
}

/// The account type that the first byte of an account's data names, if any:
/// the byte is the position of the type in the declaration above.
pub open spec fn spec_account_type_from_byte(b: u8) -> Option<GovernanceAccountType> {
    if b == 0 { Some(GovernanceAccountType::Uninitialized) }
    else if b == 1 { Some(GovernanceAccountType::DabraV1) }
    else if b == 2 { Some(GovernanceAccountType::TokenOwnerRecordV1) }
    else if b == 3 { Some(GovernanceAccountType::GovernanceV1) }
    else if b == 4 { Some(GovernanceAccountType::ProgramGovernanceV1) }
    else if b == 5 { Some(GovernanceAccountType::ProposalV1) }
    else if b == 6 { Some(GovernanceAccountType::SignatoryRecordV1) }
    else if b == 7 { Some(GovernanceAccountType::VoteRecordV1) }
    else if b == 8 { Some(GovernanceAccountType::ProposalInstructionV1) }
    else if b == 9 { Some(GovernanceAccountType::MintGovernanceV1) }
    else if b == 10 { Some(GovernanceAccountType::TokenGovernanceV1) }
    else if b == 11 { Some(GovernanceAccountType::DabraConfig) }
    else if b == 12 { Some(GovernanceAccountType::VoteRecordV2) }
    else if b == 13 { Some(GovernanceAccountType::ProposalTransactionV2) }
    else if b == 14 { Some(GovernanceAccountType::ProposalV2) }
    else if b == 15 { Some(GovernanceAccountType::ProgramMetadata) }
    else if b == 16 { Some(GovernanceAccountType::DabraV2) }
    else if b == 17 { Some(GovernanceAccountType::TokenOwnerRecordV2) }
    else if b == 18 { Some(GovernanceAccountType::GovernanceV2) }
    else if b == 19 { Some(GovernanceAccountType::ProgramGovernanceV2) }
    else if b == 20 { Some(GovernanceAccountType::MintGovernanceV2) }
    else if b == 21 { Some(GovernanceAccountType::TokenGovernanceV2) }
    else if b == 22 { Some(GovernanceAccountType::SignatoryRecordV2) }
    else if b == 23 { Some(GovernanceAccountType::ProposalDeposit) }
    else if b == 24 { Some(GovernanceAccountType::RequiredSignatory) }
    else { None }
}

/// Reads the account type from the first byte of an account's data.
pub fn account_type_from_byte(b: u8) -> (r: Option<GovernanceAccountType>)
    ensures
        r == spec_account_type_from_byte(b),
{
    match b {
        0 => Some(GovernanceAccountType::Uninitialized),
        1 => Some(GovernanceAccountType::DabraV1),
        2 => Some(GovernanceAccountType::TokenOwnerRecordV1),
        3 => Some(GovernanceAccountType::GovernanceV1),
        4 => Some(GovernanceAccountType::ProgramGovernanceV1),
        5 => Some(GovernanceAccountType::ProposalV1),
        6 => Some(GovernanceAccountType::SignatoryRecordV1),
        7 => Some(GovernanceAccountType::VoteRecordV1),
        8 => Some(GovernanceAccountType::ProposalInstructionV1),
        9 => Some(GovernanceAccountType::MintGovernanceV1),
        10 => Some(GovernanceAccountType::TokenGovernanceV1),
        11 => Some(GovernanceAccountType::DabraConfig),
        12 => Some(GovernanceAccountType::VoteRecordV2),
        13 => Some(GovernanceAccountType::ProposalTransactionV2),
        14 => Some(GovernanceAccountType::ProposalV2),
        15 => Some(GovernanceAccountType::ProgramMetadata),
        16 => Some(GovernanceAccountType::DabraV2),
        17 => Some(GovernanceAccountType::TokenOwnerRecordV2),
        18 => Some(GovernanceAccountType::GovernanceV2),
        19 => Some(GovernanceAccountType::ProgramGovernanceV2),
        20 => Some(GovernanceAccountType::MintGovernanceV2),
        21 => Some(GovernanceAccountType::TokenGovernanceV2),
        22 => Some(GovernanceAccountType::SignatoryRecordV2),
        23 => Some(GovernanceAccountType::ProposalDeposit),
        24 => Some(GovernanceAccountType::RequiredSignatory),
        _ => None,
    }
}

/// The base of the supply fraction: a fraction of `SUPPLY_FRACTION_BASE` is the whole supply.
pub const SUPPLY_FRACTION_BASE: u64 = 10_000_000_000u64;

/// The source of the max voter weight of a governing token mint.
#[derive(Clone, Copy, Debug, PartialEq, Eq, Structural)]
pub enum MintMaxVoterWeightSource {
    /// Fraction (10^10 precision) of the governing mint supply
    SupplyFraction(u64),
    /// Absolute value, irrelevant of the actual mint supply
    Absolute(u64),
}

impl MintMaxVoterWeightSource {
    /// The whole supply of the mint.
    pub fn full_supply_fraction() -> (r: MintMaxVoterWeightSource)
        ensures
            r == MintMaxVoterWeightSource::SupplyFraction(SUPPLY_FRACTION_BASE),
    {
        MintMaxVoterWeightSource::SupplyFraction(SUPPLY_FRACTION_BASE)
    }
}

/// The kind of a vote.
#[derive(Clone, Copy, Debug, PartialEq, Eq, Structural)]
pub enum VoteKind {
    /// Electorate vote is cast by the voting population identified by governing_token_mint
    Electorate,
    /// Vote cast by the opposite voting population to the Electorate
    Veto,
}

/// Whether a config item is added or removed.
#[derive(Clone, Copy, Debug, PartialEq, Eq, Structural)]
pub enum SetConfigItemActionType {
    /// Add config item
    Add,
    /// Remove config item
    Remove,
}

} // verus!
