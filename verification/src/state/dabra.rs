//! The Dabra account: its configuration and the rules over its governing mints.
use vstd::prelude::*;
use vstd::utf8::encode_utf8;
use solana_program::account_info::AccountInfo;
use solana_program::pubkey::Pubkey as SolanaPubkey;
use spl_governance_tools::account::assert_is_valid_account_of_types;
use spl_governance_tools::error::GovernanceToolsError as ToolsError;
use crate::error::{gov_err, GovernanceError, ProgramError};
use crate::pubkey::{
    find_program_address, program_address, program_address_exists, try_find_program_address,
    Pubkey,
};
use crate::state::dabra_config::GoverningTokenType;
use crate::state::enums::{
    account_type_from_byte, spec_account_type_from_byte, GovernanceAccountType, MintMaxVoterWeightSource, SetConfigItemActionType, VoteKind,
    SUPPLY_FRACTION_BASE,
};

verus! {

/// SetDabraConfigItem instruction arguments to set a single Dabra config item.
/// In the current version only TokenOwnerRecordLockAuthority is supported.
#[derive(Clone, Copy, Debug)]
pub enum SetDabraConfigItemArgs {
    /// Set TokenOwnerRecord lock authority
    TokenOwnerRecordLockAuthority {
        /// Action indicating whether to add or remove the lock authority
        action: SetConfigItemActionType,
        /// Mint of the governing token the lock authority is for
        governing_token_mint: Pubkey,
        /// Authority to change
        authority: Pubkey,
    },
}

/// Dabra Config instruction args
#[derive(Clone, Copy, Debug)]
pub struct DabraConfigArgs {
    /// Indicates whether council_mint should be used.
    /// If yes then council_mint account must also be passed to the instruction
    pub use_council_mint: bool,
    /// Min number of community tokens required to create a governance
    pub min_community_weight_to_create_governance: u64,
    /// The source used for community mint max vote weight source
    pub community_mint_max_voter_weight_source: MintMaxVoterWeightSource,
    /// Community token config args
    pub community_token_config_args: GoverningTokenConfigArgs,
    /// Council token config args
    pub council_token_config_args: GoverningTokenConfigArgs,
}

/// Governing token config args of an instruction
#[derive(Clone, Copy, Debug)]
pub struct GoverningTokenConfigArgs {
    /// Indicates whether an external addin program should be used to provide
    /// voters weights. If yes then the voters weight program account must be
    /// passed to the instruction
    pub use_voter_weight_addin: bool,
    /// Indicates whether an external addin program should be used to provide
    /// max voters weight for the token. If yes then the max voter weight
    /// program account must be passed to the instruction
    pub use_max_voter_weight_addin: bool,
    /// Governing token type defines how the token is used for governance
    pub token_type: GoverningTokenType,
}

impl Default for GoverningTokenConfigArgs {
    fn default() -> (r: Self)
        ensures
            !r.use_voter_weight_addin,
            !r.use_max_voter_weight_addin,
            r.token_type == GoverningTokenType::Liquid,
    {
        GoverningTokenConfigArgs {
            use_voter_weight_addin: false,
            use_max_voter_weight_addin: false,
            token_type: GoverningTokenType::Liquid,
        }
    }
}

/// Governing token config args with account parameters
#[derive(Clone, Copy, Debug)]
pub struct GoverningTokenConfigAccountArgs {
    /// Specifies an external plugin program which should be used to provide
    /// voters weights for the given governing token
    pub voter_weight_addin: Option<Pubkey>,
    /// Specifies an external plugin program which should be used to provide
    /// max voters weight for the given governing token
    pub max_voter_weight_addin: Option<Pubkey>,
    /// Governing token type defines how the token is used for governance power
    pub token_type: GoverningTokenType,
}

impl Default for GoverningTokenConfigAccountArgs {
    fn default() -> (r: Self)
        ensures
            r.voter_weight_addin is None,
            r.max_voter_weight_addin is None,
            r.token_type == GoverningTokenType::Liquid,
    {
        GoverningTokenConfigAccountArgs {
            voter_weight_addin: None,
            max_voter_weight_addin: None,
            token_type: GoverningTokenType::Liquid,
        }
    }
}

/// SetDabraAuthority instruction action
#[derive(Clone, Copy, Debug, PartialEq, Eq, Structural)]
pub enum SetDabraAuthorityAction {
    /// Sets dabra authority without any checks. Unchecked option allows to set
    /// the dabra authority to non governance accounts
    SetUnchecked,
    /// Sets dabra authority and checks the new authority is one of the
    /// dabra's governances
    SetChecked,
    /// Removes dabra authority
    Remove,
}

/// Dabra Config defining Dabra parameters.
#[derive(Clone, Copy, Debug)]
pub struct DabraConfig {
    /// Legacy field, formerly use_community_voter_weight_addin
    pub legacy1: u8,
    /// Legacy field, formerly use_max_community_voter_weight_addin
    pub legacy2: u8,
    /// Reserved space for future versions
    pub reserved: [u8; 6],
    /// Min number of voter's community weight required to create a governance
    pub min_community_weight_to_create_governance: u64,
    /// The source used for community mint max vote weight source
    pub community_mint_max_voter_weight_source: MintMaxVoterWeightSource,
    /// Optional council mint
    pub council_mint: Option<Pubkey>,
}

/// Governance Dabra Account. Account PDA seeds: ['governance', name]
#[derive(Clone, Debug)]
pub struct DabraV2 {
    /// Governance account type
    pub account_type: GovernanceAccountType,
    /// Community mint
    pub community_mint: Pubkey,
    /// Configuration of the Dabra
    pub config: DabraConfig,
    /// Reserved space for future versions
    pub reserved: [u8; 6],
    /// Legacy field not used since program V3 any longer
    pub legacy1: u16,
    /// Dabra authority. The authority must sign transactions which update the
    /// dabra config
    pub authority: Option<Pubkey>,
    /// Governance Dabra name
    pub name: String,
    /// Reserved space for versions v2 and onwards
    pub reserved_v2: [u8; 128],
}

/// Governance Dabra Account in the layout of program version 1.
#[derive(Clone, Debug)]
pub struct DabraV1 {
    /// Governance account type
    pub account_type: GovernanceAccountType,
    /// Community mint
    pub community_mint: Pubkey,
    /// Configuration of the Dabra
    pub config: DabraConfig,
    /// Reserved space for future versions
    pub reserved: [u8; 6],
    /// The number of proposals in voting state in the Dabra
    pub voting_proposal_count: u16,
    /// Dabra authority
    pub authority: Option<Pubkey>,
    /// Governance Dabra name
    pub name: String,
}

/// The bytes of the seed "governance" that the program derives its addresses from.
pub open spec fn program_authority_seed() -> Seq<u8> {
    seq![103u8, 111u8, 118u8, 101u8, 114u8, 110u8, 97u8, 110u8, 99u8, 101u8]
}

/// The bytes of the seed "governance".
pub fn program_authority_seed_bytes() -> (r: Vec<u8>)
    ensures
        r@ == program_authority_seed(),
{
    let r = vec![103u8, 111u8, 118u8, 101u8, 114u8, 110u8, 97u8, 110u8, 99u8, 101u8];
    assert(r@ =~= program_authority_seed());
    r
}

/// A `reserved_v2` with all its bytes zero.
pub open spec fn is_zeroed_128(a: [u8; 128]) -> bool {
    forall|i: int| 0 <= i < 128 ==> #[trigger] a@[i] == 0u8
}

/// The number of bytes of the Dabra's name.
pub open spec fn name_len(name: String) -> int {
    encode_utf8(name@).len() as int
}

impl DabraV2 {
    /// Whether the mint is the community or the council mint of the Dabra.
    pub open spec fn is_governing_token_mint(&self, mint: Pubkey) -> bool {
        self.community_mint == mint || self.config.council_mint == Some(mint)
    }

    /// The max size of the account, the name plus the fixed part.
    pub fn get_max_size(&self) -> (r: Option<usize>)
        requires
            name_len(self.name) + 264 <= usize::MAX,
        ensures
            r == Some((name_len(self.name) + 264) as usize),
    {
        Some(self.name.as_str().len() + 264)
    }

    /// Whether the account holds an initialized Dabra of the current version.
    pub fn is_initialized(&self) -> (r: bool)
        ensures
            r == (self.account_type == GovernanceAccountType::DabraV2),
    {
        self.account_type == GovernanceAccountType::DabraV2
    }
}

/// Checks if the given account type is on of the Dabra account types of any version
pub fn is_dabra_account_type(account_type: &GovernanceAccountType) -> (r: bool)
    ensures
        r == (*account_type == GovernanceAccountType::DabraV1 || *account_type
            == GovernanceAccountType::DabraV2),
{
    match account_type {
        GovernanceAccountType::DabraV1 | GovernanceAccountType::DabraV2 => true,
        GovernanceAccountType::GovernanceV2
        | GovernanceAccountType::ProgramGovernanceV2
        | GovernanceAccountType::MintGovernanceV2
        | GovernanceAccountType::TokenGovernanceV2
        | GovernanceAccountType::Uninitialized
        | GovernanceAccountType::DabraConfig
        | GovernanceAccountType::TokenOwnerRecordV1
        | GovernanceAccountType::TokenOwnerRecordV2
        | GovernanceAccountType::GovernanceV1
        | GovernanceAccountType::ProgramGovernanceV1
        | GovernanceAccountType::MintGovernanceV1
        | GovernanceAccountType::TokenGovernanceV1
        | GovernanceAccountType::ProposalV1
        | GovernanceAccountType::ProposalV2
        | GovernanceAccountType::SignatoryRecordV1
        | GovernanceAccountType::SignatoryRecordV2
        | GovernanceAccountType::ProposalInstructionV1
        | GovernanceAccountType::ProposalTransactionV2
        | GovernanceAccountType::VoteRecordV1
        | GovernanceAccountType::VoteRecordV2
        | GovernanceAccountType::ProgramMetadata
        | GovernanceAccountType::ProposalDeposit
        | GovernanceAccountType::RequiredSignatory => false,
    }
}


/// The layout that a Dabra account is written in.
#[derive(Clone, Debug)]
pub enum DabraAccountLayout {
    /// Written in the current layout
    V2(DabraV2),
    /// Written back in the layout of program version 1
    V1(DabraV1),
    /// Not written
    Unwritten,
}

/// The Dabra in the current layout for a Dabra read in the layout of
/// version 1: the legacy field is zero and so is the extra reserved space.
pub open spec fn dabra_v2_from_v1(v1: DabraV1) -> DabraV2 {
    DabraV2 {
        account_type: v1.account_type,
        community_mint: v1.community_mint,
        config: v1.config,
        reserved: v1.reserved,
        legacy1: 0,
        authority: v1.authority,
        name: v1.name,
        reserved_v2: v2_zero_reserved(),
    }
}

/// The extra reserved space, all zero.
pub open spec fn v2_zero_reserved() -> [u8; 128] {
    vstd::array::spec_array_fill_for_copy_type::<u8, 128>(0u8)
}

/// The Dabra in the layout of version 1 for a Dabra in the current layout.
pub open spec fn dabra_v1_from_v2(v2: DabraV2) -> DabraV1 {
    DabraV1 {
        account_type: v2.account_type,
        community_mint: v2.community_mint,
        config: v2.config,
        reserved: v2.reserved,
        voting_proposal_count: 0,
        authority: v2.authority,
        name: v2.name,
    }
}

/// The result of `get_dabra_data_for_authority`.
pub open spec fn dabra_for_authority(dabra_data: DabraV2, authority: Pubkey) -> Result<
    DabraV2,
    ProgramError,
> {
    match dabra_data.authority {
        None => Err(gov_err(GovernanceError::DabraHasNoAuthority)),
        Some(a) => if a == authority {
            Ok(dabra_data)
        } else {
            Err(gov_err(GovernanceError::InvalidAuthorityForDabra))
        },
    }
}

/// The result of `assert_valid_dabra_config_args`.
pub open spec fn valid_dabra_config_args(args: DabraConfigArgs) -> Result<(), ProgramError> {
    match args.community_mint_max_voter_weight_source {
        MintMaxVoterWeightSource::SupplyFraction(fraction) => if 1 <= fraction
            <= SUPPLY_FRACTION_BASE {
            Ok(())
        } else {
            Err(gov_err(GovernanceError::InvalidMaxVoterWeightSupplyFraction))
        },
        MintMaxVoterWeightSource::Absolute(value) => if value == 0 {
            Err(gov_err(GovernanceError::InvalidMaxVoterWeightAbsoluteValue))
        } else {
            Ok(())
        },
    }
}

/// The seeds of the Dabra address: "governance" and the name.
pub open spec fn dabra_address_seeds(name: Seq<u8>) -> Seq<Seq<u8>> {
    seq![program_authority_seed(), name]
}

/// The seeds of the address of a token holding account of the Dabra:
/// "governance", the Dabra and the governing token mint.
pub open spec fn governing_token_holding_address_seeds(dabra: Pubkey, mint: Pubkey) -> Seq<
    Seq<u8>,
> {
    seq![program_authority_seed(), dabra@, mint@]
}

/// The view of a vector of byte vectors is the sequence of their views.
pub proof fn lemma_bytes_deep_view(v: Vec<u8>)
    ensures
        v.deep_view() =~= v@,
{
}

/// Copies the bytes of a key.
pub fn key_bytes(k: &Pubkey) -> (r: Vec<u8>)
    ensures
        r@ == k@,
{
    let mut r: Vec<u8> = Vec::new();
    let mut i: usize = 0;
    while i < 32
        invariant
            0 <= i <= 32,
            r@ =~= k.bytes@.subrange(0, i as int),
        decreases 32 - i,
    {
        r.push(k.bytes[i]);
        i = i + 1;
    }
    r
}

impl DabraV2 {
    /// Asserts the given mint is either Community or Council mint of the Dabra
    pub fn assert_is_valid_governing_token_mint(&self, governing_token_mint: &Pubkey) -> (r: Result<
        (),
        ProgramError,
    >)
        ensures
            r == if self.is_governing_token_mint(*governing_token_mint) {
                Ok::<(), ProgramError>(())
            } else {
                Err(gov_err(GovernanceError::InvalidGoverningTokenMint))
            },
    {
        if self.community_mint == *governing_token_mint {
            return Ok(());
        }
        if crate::pubkey::option_key_eq(&self.config.council_mint, &Some(*governing_token_mint)) {
            return Ok(());
        }
        Err(ProgramError::Governance(GovernanceError::InvalidGoverningTokenMint))
    }

    /// The result of `get_proposal_governing_token_mint_for_vote`.
    pub open spec fn proposal_governing_token_mint_for_vote(
        &self,
        vote_governing_token_mint: Pubkey,
        vote_kind: VoteKind,
    ) -> Result<Pubkey, ProgramError> {
        match vote_kind {
            VoteKind::Electorate => Ok(vote_governing_token_mint),
            VoteKind::Veto => if self.community_mint == vote_governing_token_mint {
                Ok(self.config.council_mint.unwrap())
            } else if self.config.council_mint == Some(vote_governing_token_mint) {
                Ok(self.community_mint)
            } else {
                Err(gov_err(GovernanceError::InvalidGoverningTokenMint))
            },
        }
    }

    /// Returns the governing token mint which is used to vote on a proposal
    /// given the provided Vote kind and vote_governing_token_mint.
    /// Veto vote is cast on a proposal configured for the opposite voting
    /// population: Council can veto Community vote and Community can veto
    /// Council. For all votes other than Veto the vote_governing_token_mint
    /// is the same as Proposal governing_token_mint.
    pub fn get_proposal_governing_token_mint_for_vote(
        &self,
        vote_governing_token_mint: &Pubkey,
        vote_kind: &VoteKind,
    ) -> (r: Result<Pubkey, ProgramError>)
        requires
            *vote_kind == VoteKind::Veto && self.community_mint == *vote_governing_token_mint
                ==> self.config.council_mint is Some,
        ensures
            r == self.proposal_governing_token_mint_for_vote(*vote_governing_token_mint, *vote_kind),
    {
        match vote_kind {
            VoteKind::Electorate => Ok(*vote_governing_token_mint),
            VoteKind::Veto => {
                if self.community_mint == *vote_governing_token_mint {
                    return Ok(self.config.council_mint.unwrap());
                }
                if crate::pubkey::option_key_eq(
                    &self.config.council_mint,
                    &Some(*vote_governing_token_mint),
                ) {
                    return Ok(self.community_mint);
                }
                Err(ProgramError::Governance(GovernanceError::InvalidGoverningTokenMint))
            },
        }
    }

    /// The result of `assert_is_valid_governing_token_mint_and_holding`.
    pub open spec fn valid_governing_token_mint_and_holding(
        &self,
        program_id: Pubkey,
        dabra: Pubkey,
        mint: Pubkey,
        holding: Pubkey,
    ) -> Result<(), ProgramError> {
        if !self.is_governing_token_mint(mint) {
            Err(gov_err(GovernanceError::InvalidGoverningTokenMint))
        } else if program_address(governing_token_holding_address_seeds(dabra, mint), program_id@)
            != holding@ {
            Err(gov_err(GovernanceError::InvalidGoverningTokenHoldingAccount))
        } else {
            Ok(())
        }
    }

    /// Asserts the given governing token mint and holding accounts are valid
    /// for the dabra
    pub fn assert_is_valid_governing_token_mint_and_holding(
        &self,
        program_id: &Pubkey,
        dabra: &Pubkey,
        governing_token_mint: &Pubkey,
        governing_token_holding: &Pubkey,
    ) -> (r: Result<(), ProgramError>)
        requires
            self.is_governing_token_mint(*governing_token_mint) ==> program_address_exists(
                governing_token_holding_address_seeds(*dabra, *governing_token_mint),
                program_id@,
            ),
        ensures
            r == self.valid_governing_token_mint_and_holding(
                *program_id,
                *dabra,
                *governing_token_mint,
                *governing_token_holding,
            ),
    {
        self.assert_is_valid_governing_token_mint(governing_token_mint)?;
        let governing_token_holding_address = get_governing_token_holding_address(
            program_id,
            dabra,
            governing_token_mint,
        );
        proof {
            crate::pubkey::lemma_pubkey_view_injective(
                governing_token_holding_address,
                *governing_token_holding,
            );
        }
        if governing_token_holding_address != *governing_token_holding {
            return Err(ProgramError::Governance(GovernanceError::InvalidGoverningTokenHoldingAccount));
        }
        Ok(())
    }

    /// Checks the mint and the holding account as
    /// `assert_is_valid_governing_token_mint_and_holding` does, or returns
    /// `None` where the holding address of a valid mint cannot be derived.
    pub fn try_assert_is_valid_governing_token_mint_and_holding(
        &self,
        program_id: &Pubkey,
        dabra: &Pubkey,
        governing_token_mint: &Pubkey,
        governing_token_holding: &Pubkey,
    ) -> (r: Option<Result<(), ProgramError>>)
        ensures
            r is None <==> (self.is_governing_token_mint(*governing_token_mint)
                && !program_address_exists(
                governing_token_holding_address_seeds(*dabra, *governing_token_mint),
                program_id@,
            )),
            r matches Some(res) ==> res == self.valid_governing_token_mint_and_holding(
                *program_id,
                *dabra,
                *governing_token_mint,
                *governing_token_holding,
            ),
    {
        if self.assert_is_valid_governing_token_mint(governing_token_mint).is_ok() {
            let seeds = get_governing_token_holding_address_seeds(dabra, governing_token_mint);
            if try_find_program_address(&seeds, program_id).is_none() {
                return None;
            }
        }
        Some(
            self.assert_is_valid_governing_token_mint_and_holding(
                program_id,
                dabra,
                governing_token_mint,
                governing_token_holding,
            ),
        )
    }

    /// Whether the create authority is the Dabra's authority; where it is
    /// not, the token owner record decides whether a governance can be created.
    pub fn is_dabra_authority(&self, create_authority: &Pubkey) -> (r: bool)
        ensures
            r == (self.authority == Some(*create_authority)),
    {
        crate::pubkey::option_key_eq(&self.authority, &Some(*create_authority))
    }

    /// Asserts the given create authority can create a governance: the Dabra
    /// authority can where it signed the transaction; any other authority can
    /// where the checks of its token owner record pass, whose outcome is
    /// `token_owner_record_check`.
    pub fn assert_create_authority_can_create_governance(
        &self,
        create_authority: &Pubkey,
        create_authority_is_signer: bool,
        token_owner_record_check: Result<(), ProgramError>,
    ) -> (r: Result<(), ProgramError>)
        ensures
            r == if self.authority == Some(*create_authority) {
                if create_authority_is_signer {
                    Ok::<(), ProgramError>(())
                } else {
                    Err(gov_err(GovernanceError::DabraAuthorityMustSign))
                }
            } else {
                token_owner_record_check
            },
    {
        if crate::pubkey::option_key_eq(&self.authority, &Some(*create_authority)) {
            return if !create_authority_is_signer {
                Err(ProgramError::Governance(GovernanceError::DabraAuthorityMustSign))
            } else {
                Ok(())
            };
        }
        token_owner_record_check
    }

    /// Chooses the layout the account is written in: a Dabra of the current
    /// version in the current layout, one of version 1 translated back to
    /// the layout of version 1, and any other account not at all.
    pub fn serialize(self) -> (r: DabraAccountLayout)
        requires
            self.account_type == GovernanceAccountType::DabraV1 ==> is_zeroed_128(
                self.reserved_v2,
            ),
        ensures
            self.account_type == GovernanceAccountType::DabraV2 ==> r == DabraAccountLayout::V2(
                self,
            ),
            self.account_type == GovernanceAccountType::DabraV1 ==> r == DabraAccountLayout::V1(
                dabra_v1_from_v2(self),
            ),
            self.account_type != GovernanceAccountType::DabraV2 && self.account_type
                != GovernanceAccountType::DabraV1 ==> r == DabraAccountLayout::Unwritten,
    {
        if self.account_type == GovernanceAccountType::DabraV2 {
            DabraAccountLayout::V2(self)
        } else if self.account_type == GovernanceAccountType::DabraV1 {
            DabraAccountLayout::V1(
                DabraV1 {
                    account_type: self.account_type,
                    community_mint: self.community_mint,
                    config: self.config,
                    reserved: self.reserved,
                    voting_proposal_count: 0,
                    authority: self.authority,
                    name: self.name,
                },
            )
        } else {
            DabraAccountLayout::Unwritten
        }
    }
}

/// The Dabra in the current layout for a Dabra read in the layout of version 1.
pub fn dabra_from_v1(v1: DabraV1) -> (r: DabraV2)
    ensures
        r == dabra_v2_from_v1(v1),
{
    let r = DabraV2 {
        account_type: v1.account_type,
        community_mint: v1.community_mint,
        config: v1.config,
        reserved: v1.reserved,
        legacy1: 0,
        authority: v1.authority,
        name: v1.name,
        reserved_v2: [0u8; 128],
    };
    proof {
        broadcast use vstd::array::group_array_axioms;
        assert(r.reserved_v2 == v2_zero_reserved());
    }
    r
}

/// What `get_dabra_data` returns.
pub open spec fn dabra_data_result(
    program_id: Pubkey,
    owner: Pubkey,
    data: Seq<u8>,
    dabra_v1: Result<DabraV1, ProgramError>,
    dabra_v2: Result<DabraV2, ProgramError>,
) -> Result<DabraV2, ProgramError> {
    match crate::account::program_account_check(program_id, owner, data) {
        Err(e) => Err(e),
        Ok(b) => match spec_account_type_from_byte(b) {
            None => Err(ProgramError::BorshIoError),
            Some(t) => if t == GovernanceAccountType::DabraV1 {
                match dabra_v1 {
                    Err(e) => Err(e),
                    Ok(v1) => if v1.account_type != GovernanceAccountType::DabraV1 {
                        Err(ProgramError::UninitializedAccount)
                    } else {
                        Ok(dabra_v2_from_v1(v1))
                    },
                }
            } else {
                match dabra_v2 {
                    Err(e) => Err(e),
                    Ok(v2) => if v2.account_type != GovernanceAccountType::DabraV2 {
                        Err(ProgramError::UninitializedAccount)
                    } else {
                        Ok(v2)
                    },
                }
            },
        },
    }
}

/// Reads the Dabra account and checks its owner program. The account must
/// have data and be owned by the program; an account of version 1, as its
/// first byte says, is read in that layout and translated to the current
/// one, any other is read in the current layout. `dabra_v1` and `dabra_v2`
/// are the account's data read in either layout.
pub fn get_dabra_data(
    program_id: &Pubkey,
    dabra_key: &Pubkey,
    dabra_owner: &Pubkey,
    dabra_data: &Vec<u8>,
    dabra_v1: Result<DabraV1, ProgramError>,
    dabra_v2: Result<DabraV2, ProgramError>,
) -> (r: Result<DabraV2, ProgramError>)
    ensures
        r == dabra_data_result(*program_id, *dabra_owner, dabra_data@, dabra_v1, dabra_v2),
{
    let account_type_byte = match crate::account::get_account_type_byte(
        program_id,
        dabra_key,
        dabra_owner,
        dabra_data,
    ) {
        Ok(b) => b,
        Err(e) => return Err(e),
    };
    let account_type = match account_type_from_byte(account_type_byte) {
        Some(t) => t,
        None => return Err(ProgramError::BorshIoError),
    };
    if account_type == GovernanceAccountType::DabraV1 {
        let dabra_data_v1 = match dabra_v1 {
            Ok(v1) => v1,
            Err(e) => return Err(e),
        };
        if dabra_data_v1.account_type != GovernanceAccountType::DabraV1 {
            return Err(ProgramError::UninitializedAccount);
        }
        return Ok(dabra_from_v1(dabra_data_v1));
    }
    let dabra_data_v2 = match dabra_v2 {
        Ok(v2) => v2,
        Err(e) => return Err(e),
    };
    if !dabra_data_v2.is_initialized() {
        return Err(ProgramError::UninitializedAccount);
    }
    Ok(dabra_data_v2)
}

/// Checks the given authority is the Dabra's authority.
pub fn get_dabra_data_for_authority(dabra_data: DabraV2, dabra_authority: &Pubkey) -> (r: Result<
    DabraV2,
    ProgramError,
>)
    ensures
        r == dabra_for_authority(dabra_data, *dabra_authority),
{
    if dabra_data.authority.is_none() {
        return Err(ProgramError::Governance(GovernanceError::DabraHasNoAuthority));
    }
    if dabra_data.authority.unwrap() != *dabra_authority {
        return Err(ProgramError::Governance(GovernanceError::InvalidAuthorityForDabra));
    }
    Ok(dabra_data)
}

/// Asserts the given governing_token_mint is either Community or Council
/// mint of the Dabra.
pub fn get_dabra_data_for_governing_token_mint(
    dabra_data: DabraV2,
    governing_token_mint: &Pubkey,
) -> (r: Result<DabraV2, ProgramError>)
    ensures
        r == if dabra_data.is_governing_token_mint(*governing_token_mint) {
            Ok::<DabraV2, ProgramError>(dabra_data)
        } else {
            Err(gov_err(GovernanceError::InvalidGoverningTokenMint))
        },
{
    dabra_data.assert_is_valid_governing_token_mint(governing_token_mint)?;
    Ok(dabra_data)
}

/// Whether the account type byte passes the check of `assert_is_valid_dabra`
/// that its account type is a Dabra type. A byte that names no account type
/// passes it, to be refused as data that does not decode after the check.
pub open spec fn dabra_type_byte_accepted(b: u8) -> bool {
    match spec_account_type_from_byte(b) {
        Some(t) => t == GovernanceAccountType::DabraV1 || t == GovernanceAccountType::DabraV2,
        None => true,
    }
}

/// Decides `dabra_type_byte_accepted`.
pub fn is_dabra_type_byte_accepted(b: u8) -> (r: bool)
    ensures
        r == dabra_type_byte_accepted(b),
{
    match account_type_from_byte(b) {
        Some(t) => is_dabra_account_type(&t),
        None => true,
    }
}

/// Calls `spl_governance_tools::account::assert_is_valid_account_of_types`
/// on an account with the given key, owner and data, reading its account
/// type as its first byte and testing it with `is_dabra_type_byte_accepted`.
/// The contract claims what the crate's source shows: an account with no
/// data does not exist; one not owned by the program has an invalid owner;
/// one whose type byte fails the test has an invalid type; any other passes.
#[verifier::external_body]
fn tools_assert_is_valid_dabra_account(
    program_id: &Pubkey,
    key: &Pubkey,
    owner: &Pubkey,
    data: &Vec<u8>,
) -> (r: Result<(), ProgramError>)
    ensures
        r == if data@.len() == 0 {
            Err::<(), ProgramError>(ProgramError::AccountDoesNotExist)
        } else if owner@ != program_id@ {
            Err::<(), ProgramError>(ProgramError::InvalidAccountOwner)
        } else if !dabra_type_byte_accepted(data@[0]) {
            Err::<(), ProgramError>(ProgramError::InvalidAccountType)
        } else {
            Ok::<(), ProgramError>(())
        },
{
    let (pid, k, o) = (SolanaPubkey::from(program_id.bytes), SolanaPubkey::from(key.bytes), SolanaPubkey::from(owner.bytes));
    let (mut lamports, mut bytes) = (0u64, data.clone());
    let info = AccountInfo::new(&k, false, false, &mut lamports, &mut bytes, &o, false, 0);
    match assert_is_valid_account_of_types(&pid, &info, |t: &u8| is_dabra_type_byte_accepted(*t)) {
        Ok(()) => Ok(()),
        Err(e) if e == ToolsError::AccountDoesNotExist.into() => Err(ProgramError::AccountDoesNotExist),
        Err(e) if e == ToolsError::InvalidAccountOwner.into() => Err(ProgramError::InvalidAccountOwner),
        Err(e) if e == ToolsError::InvalidAccountType.into() => Err(ProgramError::InvalidAccountType),
        Err(_) => Err(ProgramError::BorshIoError),
    }
}

/// The result of `assert_is_valid_dabra`.
pub open spec fn valid_dabra_account(program_id: Pubkey, owner: Pubkey, data: Seq<u8>) -> Result<
    (),
    ProgramError,
> {
    if data.len() == 0 {
        Err(ProgramError::AccountDoesNotExist)
    } else if owner != program_id {
        Err(ProgramError::InvalidAccountOwner)
    } else if spec_account_type_from_byte(data[0]) is None {
        Err(ProgramError::BorshIoError)
    } else if !is_dabra_account_type_spec(spec_account_type_from_byte(data[0])->0) {
        Err(ProgramError::InvalidAccountType)
    } else {
        Ok(())
    }
}

/// Whether the account type is a Dabra type of any version.
pub open spec fn is_dabra_account_type_spec(t: GovernanceAccountType) -> bool {
    t == GovernanceAccountType::DabraV1 || t == GovernanceAccountType::DabraV2
}

/// Checks whether the Dabra account exists, is initialized and owned by
/// the Governance program: it has data, the program owns it, and its first
/// byte names a Dabra account type of either version.
pub fn assert_is_valid_dabra(
    program_id: &Pubkey,
    dabra_key: &Pubkey,
    dabra_owner: &Pubkey,
    dabra_data: &Vec<u8>,
) -> (r: Result<(), ProgramError>)
    ensures
        r == valid_dabra_account(*program_id, *dabra_owner, dabra_data@),
{
    proof {
        crate::pubkey::lemma_pubkey_view_injective(*dabra_owner, *program_id);
    }
    match tools_assert_is_valid_dabra_account(program_id, dabra_key, dabra_owner, dabra_data) {
        Ok(()) => {
            if account_type_from_byte(dabra_data[0]).is_none() {
                return Err(ProgramError::BorshIoError);
            }
            Ok(())
        },
        Err(e) => Err(e),
    }
}

/// Returns Dabra PDA seeds
pub fn get_dabra_address_seeds(name: &str) -> (r: Vec<Vec<u8>>)
    ensures
        r.deep_view() == dabra_address_seeds(encode_utf8(name@)),
{
    let mut r: Vec<Vec<u8>> = Vec::new();
    let seed = program_authority_seed_bytes();
    let name_bytes = vstd::slice::slice_to_vec(name.as_bytes());
    proof {
        lemma_bytes_deep_view(seed);
        lemma_bytes_deep_view(name_bytes);
    }
    r.push(seed);
    r.push(name_bytes);
    assert(r.deep_view() =~= dabra_address_seeds(encode_utf8(name@)));
    r
}

/// Returns Dabra PDA address
pub fn get_dabra_address(program_id: &Pubkey, name: &str) -> (r: Pubkey)
    requires
        program_address_exists(dabra_address_seeds(encode_utf8(name@)), program_id@),
    ensures
        r@ == program_address(dabra_address_seeds(encode_utf8(name@)), program_id@),
{
    find_program_address(&get_dabra_address_seeds(name), program_id).0
}

/// Returns the Dabra PDA address, or `None` where it cannot be derived.
pub fn try_get_dabra_address(program_id: &Pubkey, name: &str) -> (r: Option<Pubkey>)
    ensures
        r is Some <==> program_address_exists(dabra_address_seeds(encode_utf8(name@)), program_id@),
        r matches Some(k) ==> k@ == program_address(
            dabra_address_seeds(encode_utf8(name@)),
            program_id@,
        ),
{
    if try_find_program_address(&get_dabra_address_seeds(name), program_id).is_some() {
        Some(get_dabra_address(program_id, name))
    } else {
        None
    }
}

/// Returns Dabra Token Holding PDA seeds
pub fn get_governing_token_holding_address_seeds(
    dabra: &Pubkey,
    governing_token_mint: &Pubkey,
) -> (r: Vec<Vec<u8>>)
    ensures
        r.deep_view() == governing_token_holding_address_seeds(*dabra, *governing_token_mint),
{
    let mut r: Vec<Vec<u8>> = Vec::new();
    let seed = program_authority_seed_bytes();
    let d = key_bytes(dabra);
    let m = key_bytes(governing_token_mint);
    proof {
        lemma_bytes_deep_view(seed);
        lemma_bytes_deep_view(d);
        lemma_bytes_deep_view(m);
    }
    r.push(seed);
    r.push(d);
    r.push(m);
    assert(r.deep_view() =~= governing_token_holding_address_seeds(*dabra, *governing_token_mint));
    r
}

/// Returns Dabra Token Holding PDA address
pub fn get_governing_token_holding_address(
    program_id: &Pubkey,
    dabra: &Pubkey,
    governing_token_mint: &Pubkey,
) -> (r: Pubkey)
    requires
        program_address_exists(
            governing_token_holding_address_seeds(*dabra, *governing_token_mint),
            program_id@,
        ),
    ensures
        r@ == program_address(
            governing_token_holding_address_seeds(*dabra, *governing_token_mint),
            program_id@,
        ),
{
    find_program_address(
        &get_governing_token_holding_address_seeds(dabra, governing_token_mint),
        program_id,
    ).0
}

/// Asserts given dabra config args are correct
pub fn assert_valid_dabra_config_args(dabra_config_args: &DabraConfigArgs) -> (r: Result<
    (),
    ProgramError,
>)
    ensures
        r == valid_dabra_config_args(*dabra_config_args),
{
    match dabra_config_args.community_mint_max_voter_weight_source {
        MintMaxVoterWeightSource::SupplyFraction(fraction) => {
            if !(1 <= fraction && fraction <= SUPPLY_FRACTION_BASE) {
                return Err(
                    ProgramError::Governance(GovernanceError::InvalidMaxVoterWeightSupplyFraction),
                );
            }
        },
        MintMaxVoterWeightSource::Absolute(value) => {
            if value == 0 {
                return Err(
                    ProgramError::Governance(GovernanceError::InvalidMaxVoterWeightAbsoluteValue),
                );
            }
        },
    }
    Ok(())
}

} // verus!
