//! Errors returned by the governance program.
use vstd::prelude::*;

verus! {

/// Errors of the governance program that its instructions reject with.
#[derive(Clone, Copy, Debug, PartialEq, Eq, Structural)]
pub enum GovernanceError {
    /// Dabra with the given name and governing mints already exists
    DabraAlreadyExists,
    /// Governing token owner must sign transaction
    GoverningTokenOwnerMustSign,
    /// Governing token owner or delegate must sign transaction
    GoverningTokenOwnerOrDelegateMustSign,
    /// Not enough tokens to create governance
    NotEnoughTokensToCreateGovernance,
    /// Invalid vote threshold percentage
    InvalidVoteThresholdPercentage,
    /// Voter weight threshold disabled
    VoterWeightThresholdDisabled,
    /// Invalid Governing Token Mint
    InvalidGoverningTokenMint,
    /// Invalid Governing Token Holding Account
    InvalidGoverningTokenHoldingAccount,
    /// Dabra has no authority
    DabraHasNoAuthority,
    /// Invalid Authority for Dabra
    InvalidAuthorityForDabra,
    /// Dabra authority must sign
    DabraAuthorityMustSign,
    /// Dabra council mint change is not supported
    DabraCouncilMintChangeIsNotSupported,
    /// Invalid max voter weight supply fraction
    InvalidMaxVoterWeightSupplyFraction,
    /// Invalid max voter weight absolute value
    InvalidMaxVoterWeightAbsoluteValue,
    /// Invalid DabraConfig account address
    InvalidDabraConfigAddress,
    /// Invalid DabraConfig for Dabra
    InvalidDabraConfigForDabra,
    /// Cannot revoke GoverningTokens
    CannotRevokeGoverningTokens,
    /// Cannot deposit dormant tokens
    CannotDepositDormantTokens,
    /// Cannot withdraw membership tokens
    CannotWithdrawMembershipTokens,
    /// Cannot change community TokenType to Membership
    CannotChangeCommunityTokenTypeToMembership,
    /// TokenOwnerRecord lock authority must sign
    TokenOwnerRecordLockAuthorityMustSign,
    /// Invalid TokenOwnerRecord lock authority
    InvalidTokenOwnerRecordLockAuthority,
    /// Expired TokenOwnerRecord lock
    ExpiredTokenOwnerRecordLock,
    /// TokenOwnerRecord lock authority already exists
    TokenOwnerRecordLockAuthorityAlreadyExists,
    /// TokenOwnerRecord lock authority not found
    TokenOwnerRecordLockAuthorityNotFound,
    /// TokenOwnerRecord lock not found
    TokenOwnerRecordLockNotFound,
}

/// The error an instruction of the program fails with.
#[derive(Clone, Copy, Debug, PartialEq, Eq, Structural)]
pub enum ProgramError {
    /// A rule of the governance program is broken.
    Governance(GovernanceError),
    /// The instruction was given fewer accounts than it reads.
    NotEnoughAccountKeys,
    /// An account that the instruction reads has no data.
    AccountDoesNotExist,
    /// An account that the instruction reads is not owned by the program.
    InvalidAccountOwner,
    /// An account that the instruction reads is of another type.
    InvalidAccountType,
    /// An account that the instruction reads is not initialized.
    UninitializedAccount,
    /// The data of an account that the instruction reads cannot be read.
    InvalidAccountData,
    /// The data of an account cannot be decoded: its account type byte
    /// names no account type, or the rest does not decode.
    BorshIoError,
    /// A sysvar that the instruction reads cannot be read.
    UnsupportedSysvar,
    /// An error, by its code, of a check that another part of the program
    /// makes and whose outcome an instruction is given.
    Custom(u32),
}

/// The program error for a governance error.
pub open spec fn gov_err(e: GovernanceError) -> ProgramError {
    ProgramError::Governance(e)
}

} // verus!
