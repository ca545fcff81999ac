//! The DabraConfig account: the configuration of the Dabra's governing tokens.
use vstd::prelude::*;
use crate::account::{next_account_info, AccountInfoIter};
use crate::error::{gov_err, GovernanceError, ProgramError};
use crate::pubkey::{
    find_program_address, program_address, program_address_exists, try_find_program_address,
    Pubkey,
};
use crate::state::dabra::{DabraConfigArgs, DabraV2, GoverningTokenConfigArgs};
use crate::state::enums::{GovernanceAccountType, SetConfigItemActionType};

verus! {

/// The type of the governing token defines:
/// 1) Who retains the authority over deposited tokens
/// 2) Which token instructions Deposit, Withdraw and Revoke (burn) are allowed
#[derive(Clone, Copy, Debug, PartialEq, Eq, Structural)]
pub enum GoverningTokenType {
    /// Liquid token is a token which is fully liquid and the token owner
    /// retains full authority over it.
    /// Deposit - Yes, Withdraw - Yes, Revoke - No
    Liquid,
    /// Membership token is a token controlled by Dabra authority.
    /// Deposit - Yes, Withdraw - No, Revoke - Yes
    Membership,
    /// Dormant token is a token which is only a placeholder and its deposits
    /// are not accepted and not used for governance power within the Dabra.
    /// Deposit - No, Withdraw - Yes, Revoke - No
    Dormant,
}

impl Default for GoverningTokenType {
    fn default() -> (r: Self)
        ensures
            r == GoverningTokenType::Liquid,
    {
        GoverningTokenType::Liquid
    }
}


/// GoverningTokenConfig specifies configuration for Dabra governing token
/// (Community or Council)
#[derive(Clone, Debug)]
pub struct GoverningTokenConfig {
    /// Plugin providing voter weights for the governing token
    pub voter_weight_addin: Option<Pubkey>,
    /// Plugin providing max voter weight for the governing token
    pub max_voter_weight_addin: Option<Pubkey>,
    /// Governing token type
    pub token_type: GoverningTokenType,
    /// Reserved space for future versions
    pub reserved: [u8; 4],
    /// Lock authorities for TokenOwnerRecords
    pub lock_authorities: Vec<Pubkey>,
}

/// The configuration of a governing token with no plugins, a liquid token
/// and no lock authorities.
pub open spec fn default_token_config(c: GoverningTokenConfig) -> bool {
    &&& c.voter_weight_addin is None
    &&& c.max_voter_weight_addin is None
    &&& c.token_type == GoverningTokenType::Liquid
    &&& c.reserved@ == seq![0u8, 0u8, 0u8, 0u8]
    &&& c.lock_authorities@.len() == 0
}

impl Default for GoverningTokenConfig {
    fn default() -> (r: Self)
        ensures
            default_token_config(r),
    {
        let r = GoverningTokenConfig {
            voter_weight_addin: None,
            max_voter_weight_addin: None,
            token_type: GoverningTokenType::Liquid,
            reserved: [0u8; 4],
            lock_authorities: Vec::new(),
        };
        proof {
            broadcast use vstd::array::group_array_axioms;
            assert(r.reserved@ =~= seq![0u8, 0u8, 0u8, 0u8]);
        }
        r
    }
}

/// Reserved space of 110 bytes
#[derive(Clone, Copy, Debug)]
pub struct Reserved110 {
    /// The reserved bytes
    pub reserved: [u8; 110],
}

impl Default for Reserved110 {
    fn default() -> (r: Self)
        ensures
            forall|i: int| 0 <= i < 110 ==> #[trigger] r.reserved@[i] == 0u8,
    {
        let r = Reserved110 { reserved: [0u8; 110] };
        proof {
            broadcast use vstd::array::group_array_axioms;
        }
        r
    }
}

/// DabraConfig account.
/// The account is an optional extension to DabraConfig stored on Dabra account
#[derive(Clone, Debug)]
pub struct DabraConfigAccount {
    /// Governance account type
    pub account_type: GovernanceAccountType,
    /// The dabra the config belong to
    pub dabra: Pubkey,
    /// Community token config
    pub community_token_config: GoverningTokenConfig,
    /// Council token config
    pub council_token_config: GoverningTokenConfig,
    /// Reserved
    pub reserved: Reserved110,
}

/// Which of the two token configurations of a DabraConfig account a mint has.
pub enum TokenConfigSide {
    Community,
    Council,
}

/// Which configuration the mint selects: the community one for the
/// community mint, else the council one for the council mint, else none.
pub open spec fn token_config_side(dabra_data: DabraV2, mint: Pubkey) -> Option<TokenConfigSide> {
    if mint == dabra_data.community_mint {
        Some(TokenConfigSide::Community)
    } else if Some(mint) == dabra_data.config.council_mint {
        Some(TokenConfigSide::Council)
    } else {
        None
    }
}

/// The size of the fixed part of the DabraConfig account plus 32 bytes for
/// each lock authority.
pub open spec fn config_account_max_size(c: DabraConfigAccount) -> int {
    293 + c.community_token_config.lock_authorities@.len() as int * 32
        + c.council_token_config.lock_authorities@.len() as int * 32
}

/// How a DabraConfig account is written.
#[derive(Clone, Copy, Debug, PartialEq, Eq, Structural)]
pub enum DabraConfigWrite {
    /// The account does not exist yet: it is created at the address derived
    /// from its Dabra, with its max size, and written
    Create,
    /// The account is too small: it is extended to the given size and written
    ExtendAndWrite(usize),
    /// The account is written as it is
    Write,
}

impl DabraConfigAccount {
    /// The configuration the mint selects, if any.
    pub open spec fn token_config_for(&self, dabra_data: DabraV2, mint: Pubkey) -> Option<
        GoverningTokenConfig,
    > {
        match token_config_side(dabra_data, mint) {
            Some(TokenConfigSide::Community) => Some(self.community_token_config),
            Some(TokenConfigSide::Council) => Some(self.council_token_config),
            None => None,
        }
    }

    /// The account with the configuration the mint selects replaced.
    pub open spec fn with_token_config(
        &self,
        dabra_data: DabraV2,
        mint: Pubkey,
        c: GoverningTokenConfig,
    ) -> DabraConfigAccount {
        match token_config_side(dabra_data, mint) {
            Some(TokenConfigSide::Community) => DabraConfigAccount {
                community_token_config: c,
                ..*self
            },
            Some(TokenConfigSide::Council) => DabraConfigAccount {
                council_token_config: c,
                ..*self
            },
            None => *self,
        }
    }

    /// The max size of the account.
    pub fn get_max_size(&self) -> (r: Option<usize>)
        requires
            config_account_max_size(*self) <= usize::MAX,
        ensures
            r == Some(config_account_max_size(*self) as usize),
    {
        let n1 = self.community_token_config.lock_authorities.len();
        let n2 = self.council_token_config.lock_authorities.len();
        Some(1 + 32 + 75 * 2 + 110 + n1 * 32 + n2 * 32)
    }

    /// Whether the account holds an initialized DabraConfig.
    pub fn is_initialized(&self) -> (r: bool)
        ensures
            r == (self.account_type == GovernanceAccountType::DabraConfig),
    {
        self.account_type == GovernanceAccountType::DabraConfig
    }

    /// Returns GoverningTokenConfig for the given governing_token_mint
    pub fn get_token_config(&self, dabra_data: &DabraV2, governing_token_mint: &Pubkey) -> (r:
        Result<&GoverningTokenConfig, ProgramError>)
        ensures
            match self.token_config_for(*dabra_data, *governing_token_mint) {
                Some(c) => r == Ok::<&GoverningTokenConfig, ProgramError>(&c),
                None => r == Err::<&GoverningTokenConfig, ProgramError>(
                    gov_err(GovernanceError::InvalidGoverningTokenMint),
                ),
            },
    {
        let token_config = if *governing_token_mint == dabra_data.community_mint {
            &self.community_token_config
        } else if crate::pubkey::option_key_eq(
            &Some(*governing_token_mint),
            &dabra_data.config.council_mint,
        ) {
            &self.council_token_config
        } else {
            return Err(ProgramError::Governance(GovernanceError::InvalidGoverningTokenMint));
        };
        Ok(token_config)
    }

    /// Returns mutable GoverningTokenConfig for the given governing_token_mint
    pub fn get_token_config_mut(&mut self, dabra_data: &DabraV2, governing_token_mint: &Pubkey) -> (r:
        Result<&mut GoverningTokenConfig, ProgramError>)
        ensures
            match r {
                Ok(c) => old(self).token_config_for(*dabra_data, *governing_token_mint) == Some(*c)
                    && *final(self) == old(self).with_token_config(
                    *dabra_data,
                    *governing_token_mint,
                    *final(c),
                ),
                Err(e) => old(self).token_config_for(*dabra_data, *governing_token_mint) is None
                    && e == gov_err(GovernanceError::InvalidGoverningTokenMint) && *final(self)
                    == *old(self),
            },
    {
        if *governing_token_mint == dabra_data.community_mint {
            Ok(&mut self.community_token_config)
        } else if crate::pubkey::option_key_eq(
            &Some(*governing_token_mint),
            &dabra_data.config.council_mint,
        ) {
            Ok(&mut self.council_token_config)
        } else {
            Err(ProgramError::Governance(GovernanceError::InvalidGoverningTokenMint))
        }
    }
}


/// Whether deposited tokens of the type can be revoked (burnt) by the Dabra authority.
pub open spec fn can_revoke(t: GoverningTokenType) -> bool {
    t == GoverningTokenType::Membership
}

/// Whether tokens of the type can be deposited.
pub open spec fn can_deposit(t: GoverningTokenType) -> bool {
    t != GoverningTokenType::Dormant
}

/// Whether deposited tokens of the type can be withdrawn.
pub open spec fn can_withdraw(t: GoverningTokenType) -> bool {
    t != GoverningTokenType::Membership
}

/// The result of a check of the token type of the configuration the mint
/// selects: the mint must select one, and its type pass the check.
pub open spec fn token_type_check(
    config: Option<GoverningTokenConfig>,
    allowed: bool,
    refused: GovernanceError,
) -> Result<(), ProgramError> {
    match config {
        None => Err(gov_err(GovernanceError::InvalidGoverningTokenMint)),
        Some(_) => if allowed {
            Ok(())
        } else {
            Err(gov_err(refused))
        },
    }
}

/// The result of `assert_can_change_config`: the community token cannot
/// become a membership token unless it is one already.
pub open spec fn can_change_config(c: DabraConfigAccount, args: DabraConfigArgs) -> Result<
    (),
    ProgramError,
> {
    if c.community_token_config.token_type != GoverningTokenType::Membership
        && args.community_token_config_args.token_type == GoverningTokenType::Membership {
        Err(gov_err(GovernanceError::CannotChangeCommunityTokenTypeToMembership))
    } else {
        Ok(())
    }
}

/// The seed bytes of "dabra-config".
pub open spec fn dabra_config_seed() -> Seq<u8> {
    seq![100u8, 97u8, 98u8, 114u8, 97u8, 45u8, 99u8, 111u8, 110u8, 102u8, 105u8, 103u8]
}

/// The seeds of the DabraConfig address: "dabra-config" and the Dabra.
pub open spec fn dabra_config_address_seeds(dabra: Pubkey) -> Seq<Seq<u8>> {
    seq![dabra_config_seed(), dabra@]
}

/// The DabraConfig account assumed for a Dabra that has none yet: no
/// plugins, liquid tokens and no lock authorities.
pub open spec fn default_dabra_config_account(c: DabraConfigAccount, dabra: Pubkey) -> bool {
    &&& c.account_type == GovernanceAccountType::DabraConfig
    &&& c.dabra == dabra
    &&& default_token_config(c.community_token_config)
    &&& default_token_config(c.council_token_config)
    &&& forall|i: int| 0 <= i < 110 ==> #[trigger] c.reserved.reserved@[i] == 0u8
}

impl DabraConfigAccount {
    /// Asserts the given governing token can be revoked
    pub fn assert_can_revoke_governing_token(
        &self,
        dabra_data: &DabraV2,
        governing_token_mint: &Pubkey,
    ) -> (r: Result<(), ProgramError>)
        ensures
            r == token_type_check(
                self.token_config_for(*dabra_data, *governing_token_mint),
                can_revoke(self.token_config_for(*dabra_data, *governing_token_mint)->0.token_type),
                GovernanceError::CannotRevokeGoverningTokens,
            ),
    {
        let governing_token_type = &self.get_token_config(dabra_data, governing_token_mint)?.token_type;
        match governing_token_type {
            GoverningTokenType::Membership => Ok(()),
            GoverningTokenType::Liquid | GoverningTokenType::Dormant => {
                Err(ProgramError::Governance(GovernanceError::CannotRevokeGoverningTokens))
            },
        }
    }

    /// Asserts the given governing token can be deposited
    pub fn assert_can_deposit_governing_token(
        &self,
        dabra_data: &DabraV2,
        governing_token_mint: &Pubkey,
    ) -> (r: Result<(), ProgramError>)
        ensures
            r == token_type_check(
                self.token_config_for(*dabra_data, *governing_token_mint),
                can_deposit(
                    self.token_config_for(*dabra_data, *governing_token_mint)->0.token_type,
                ),
                GovernanceError::CannotDepositDormantTokens,
            ),
    {
        let governing_token_type = &self.get_token_config(dabra_data, governing_token_mint)?.token_type;
        match governing_token_type {
            GoverningTokenType::Membership | GoverningTokenType::Liquid => Ok(()),
            GoverningTokenType::Dormant => Err(
                ProgramError::Governance(GovernanceError::CannotDepositDormantTokens),
            ),
        }
    }

    /// Asserts the given governing token can be withdrawn
    pub fn assert_can_withdraw_governing_token(
        &self,
        dabra_data: &DabraV2,
        governing_token_mint: &Pubkey,
    ) -> (r: Result<(), ProgramError>)
        ensures
            r == token_type_check(
                self.token_config_for(*dabra_data, *governing_token_mint),
                can_withdraw(
                    self.token_config_for(*dabra_data, *governing_token_mint)->0.token_type,
                ),
                GovernanceError::CannotWithdrawMembershipTokens,
            ),
    {
        let governing_token_type = &self.get_token_config(dabra_data, governing_token_mint)?.token_type;
        match governing_token_type {
            GoverningTokenType::Dormant | GoverningTokenType::Liquid => Ok(()),
            GoverningTokenType::Membership => {
                Err(ProgramError::Governance(GovernanceError::CannotWithdrawMembershipTokens))
            },
        }
    }

    /// Asserts the given DabraConfigArgs represent a valid Dabra configuration change
    pub fn assert_can_change_config(&self, dabra_config_args: &DabraConfigArgs) -> (r: Result<
        (),
        ProgramError,
    >)
        ensures
            r == can_change_config(*self, *dabra_config_args),
    {
        if self.community_token_config.token_type != GoverningTokenType::Membership
            && dabra_config_args.community_token_config_args.token_type
            == GoverningTokenType::Membership {
            return Err(
                ProgramError::Governance(GovernanceError::CannotChangeCommunityTokenTypeToMembership),
            );
        }
        Ok(())
    }

    /// Chooses how the account is written: created where the account has no
    /// data yet; else extended to the max size where it is smaller, then written.
    pub fn serialize(&self, dabra_config_data_is_empty: bool, dabra_config_data_len: usize) -> (r:
        DabraConfigWrite)
        requires
            config_account_max_size(*self) <= usize::MAX,
        ensures
            r == if dabra_config_data_is_empty {
                DabraConfigWrite::Create
            } else if dabra_config_data_len < config_account_max_size(*self) {
                DabraConfigWrite::ExtendAndWrite(config_account_max_size(*self) as usize)
            } else {
                DabraConfigWrite::Write
            },
    {
        if dabra_config_data_is_empty {
            DabraConfigWrite::Create
        } else {
            let dabra_config_max_size = self.get_max_size().unwrap();
            if dabra_config_data_len < dabra_config_max_size {
                DabraConfigWrite::ExtendAndWrite(dabra_config_max_size)
            } else {
                DabraConfigWrite::Write
            }
        }
    }
}

/// What `get_dabra_config_data` returns.
pub open spec fn dabra_config_data_result(
    program_id: Pubkey,
    owner: Pubkey,
    data: Seq<u8>,
    decoded: Result<DabraConfigAccount, ProgramError>,
) -> Result<DabraConfigAccount, ProgramError> {
    match crate::account::program_account_check(program_id, owner, data) {
        Err(e) => Err(e),
        Ok(_) => match decoded {
            Err(e) => Err(e),
            Ok(c) => if c.account_type != GovernanceAccountType::DabraConfig {
                Err(ProgramError::UninitializedAccount)
            } else {
                Ok(c)
            },
        },
    }
}

/// Reads the DabraConfig account and checks its owner program: the account
/// must have data, be owned by the program and hold an initialized
/// DabraConfig. `decoded` is the account's data read as a DabraConfig.
pub fn get_dabra_config_data(
    program_id: &Pubkey,
    dabra_config_key: &Pubkey,
    dabra_config_owner: &Pubkey,
    dabra_config_data: &Vec<u8>,
    decoded: Result<DabraConfigAccount, ProgramError>,
) -> (r: Result<DabraConfigAccount, ProgramError>)
    ensures
        r == dabra_config_data_result(*program_id, *dabra_config_owner, dabra_config_data@, decoded),
{
    match crate::account::get_account_type_byte(
        program_id,
        dabra_config_key,
        dabra_config_owner,
        dabra_config_data,
    ) {
        Ok(_) => {},
        Err(e) => return Err(e),
    }
    let c = match decoded {
        Ok(c) => c,
        Err(e) => return Err(e),
    };
    if !c.is_initialized() {
        return Err(ProgramError::UninitializedAccount);
    }
    Ok(c)
}

/// What `get_dabra_config_data_for_dabra` returns: `r` is the default
/// configuration where it is made, else the result itself.
pub open spec fn dabra_config_for_dabra(
    program_id: Pubkey,
    dabra_config_key: Pubkey,
    owner: Pubkey,
    data: Seq<u8>,
    decoded: Result<DabraConfigAccount, ProgramError>,
    dabra: Pubkey,
    r: Result<DabraConfigAccount, ProgramError>,
) -> bool {
    if data.len() == 0 {
        if program_address(dabra_config_address_seeds(dabra), program_id@) != dabra_config_key@ {
            r == Err::<DabraConfigAccount, ProgramError>(
                gov_err(GovernanceError::InvalidDabraConfigAddress),
            )
        } else {
            r matches Ok(c) && default_dabra_config_account(c, dabra)
        }
    } else {
        match dabra_config_data_result(program_id, owner, data, decoded) {
            Err(e) => r == Err::<DabraConfigAccount, ProgramError>(e),
            Ok(c) => if c.dabra != dabra {
                r == Err::<DabraConfigAccount, ProgramError>(
                    gov_err(GovernanceError::InvalidDabraConfigForDabra),
                )
            } else {
                r == Ok::<DabraConfigAccount, ProgramError>(c)
            },
        }
    }
}

/// The DabraConfig account of the Dabra. Where the account has data, it is
/// read as `get_dabra_config_data` reads it and must belong to the Dabra.
/// Where it has none, which a Dabra older than the DabraConfig account has,
/// its address must be the one derived from the Dabra, and the default
/// configuration (no plugins, liquid tokens) is returned.
pub fn get_dabra_config_data_for_dabra(
    program_id: &Pubkey,
    dabra_config_key: &Pubkey,
    dabra_config_owner: &Pubkey,
    dabra_config_data: &Vec<u8>,
    decoded: Result<DabraConfigAccount, ProgramError>,
    dabra: &Pubkey,
) -> (r: Result<DabraConfigAccount, ProgramError>)
    requires
        dabra_config_data@.len() == 0 ==> program_address_exists(
            dabra_config_address_seeds(*dabra),
            program_id@,
        ),
    ensures
        dabra_config_for_dabra(
            *program_id,
            *dabra_config_key,
            *dabra_config_owner,
            dabra_config_data@,
            decoded,
            *dabra,
            r,
        ),
{
    if dabra_config_data.len() == 0 {
        let dabra_config_address = get_dabra_config_address(program_id, dabra);
        proof {
            crate::pubkey::lemma_pubkey_view_injective(dabra_config_address, *dabra_config_key);
        }
        if dabra_config_address != *dabra_config_key {
            return Err(ProgramError::Governance(GovernanceError::InvalidDabraConfigAddress));
        }
        Ok(
            DabraConfigAccount {
                account_type: GovernanceAccountType::DabraConfig,
                dabra: *dabra,
                community_token_config: GoverningTokenConfig::default(),
                council_token_config: GoverningTokenConfig::default(),
                reserved: Reserved110::default(),
            },
        )
    } else {
        let dabra_config_data = match get_dabra_config_data(
            program_id,
            dabra_config_key,
            dabra_config_owner,
            dabra_config_data,
            decoded,
        ) {
            Ok(c) => c,
            Err(e) => return Err(e),
        };
        if dabra_config_data.dabra != *dabra {
            return Err(ProgramError::Governance(GovernanceError::InvalidDabraConfigForDabra));
        }
        Ok(dabra_config_data)
    }
}

/// Reads the DabraConfig account of the Dabra as
/// `get_dabra_config_data_for_dabra` does, or returns `None` where the
/// account has no data and its address cannot be derived.
pub fn try_get_dabra_config_data_for_dabra(
    program_id: &Pubkey,
    dabra_config_key: &Pubkey,
    dabra_config_owner: &Pubkey,
    dabra_config_data: &Vec<u8>,
    decoded: Result<DabraConfigAccount, ProgramError>,
    dabra: &Pubkey,
) -> (r: Option<Result<DabraConfigAccount, ProgramError>>)
    ensures
        r is None <==> (dabra_config_data@.len() == 0 && !program_address_exists(
            dabra_config_address_seeds(*dabra),
            program_id@,
        )),
        r matches Some(res) ==> dabra_config_for_dabra(
            *program_id,
            *dabra_config_key,
            *dabra_config_owner,
            dabra_config_data@,
            decoded,
            *dabra,
            res,
        ),
{
    if dabra_config_data.len() == 0 {
        if try_find_program_address(&get_dabra_config_address_seeds(dabra), program_id).is_none() {
            return None;
        }
    }
    Some(
        get_dabra_config_data_for_dabra(
            program_id,
            dabra_config_key,
            dabra_config_owner,
            dabra_config_data,
            decoded,
            dabra,
        ),
    )
}

/// The seed bytes of "dabra-config".
fn dabra_config_seed_bytes() -> (r: Vec<u8>)
    ensures
        r@ == dabra_config_seed(),
{
    let r = vec![100u8, 97u8, 98u8, 114u8, 97u8, 45u8, 99u8, 111u8, 110u8, 102u8, 105u8, 103u8];
    assert(r@ =~= dabra_config_seed());
    r
}

/// Returns DabraConfig PDA seeds
pub fn get_dabra_config_address_seeds(dabra: &Pubkey) -> (r: Vec<Vec<u8>>)
    ensures
        r.deep_view() == dabra_config_address_seeds(*dabra),
{
    let mut r: Vec<Vec<u8>> = Vec::new();
    let seed = dabra_config_seed_bytes();
    let d = crate::state::dabra::key_bytes(dabra);
    proof {
        crate::state::dabra::lemma_bytes_deep_view(seed);
        crate::state::dabra::lemma_bytes_deep_view(d);
    }
    r.push(seed);
    r.push(d);
    assert(r.deep_view() =~= dabra_config_address_seeds(*dabra));
    r
}

/// Returns DabraConfig PDA address
pub fn get_dabra_config_address(program_id: &Pubkey, dabra: &Pubkey) -> (r: Pubkey)
    requires
        program_address_exists(dabra_config_address_seeds(*dabra), program_id@),
    ensures
        r@ == program_address(dabra_config_address_seeds(*dabra), program_id@),
{
    find_program_address(&get_dabra_config_address_seeds(dabra), program_id).0
}

/// The number of accounts that resolving a token configuration takes: one
/// for each plugin that the args ask for.
pub open spec fn addin_account_count(args: GoverningTokenConfigArgs) -> int {
    (if args.use_voter_weight_addin { 1int } else { 0int }) + (if args.use_max_voter_weight_addin {
        1int
    } else {
        0int
    })
}

/// The token configuration resolved from the args and the accounts that
/// follow `pos`.
pub open spec fn resolved_token_config(
    c: GoverningTokenConfig,
    accounts: Seq<crate::account::AccountMeta>,
    pos: int,
    args: GoverningTokenConfigArgs,
    existing: Option<GoverningTokenConfig>,
) -> bool {
    &&& c.voter_weight_addin == if args.use_voter_weight_addin {
        Some(accounts[pos].key)
    } else {
        None
    }
    &&& c.max_voter_weight_addin == if args.use_max_voter_weight_addin {
        Some(
            accounts[pos + (if args.use_voter_weight_addin {
                1int
            } else {
                0int
            })].key,
        )
    } else {
        None
    }
    &&& c.token_type == args.token_type
    &&& c.reserved@ == seq![0u8, 0u8, 0u8, 0u8]
    &&& c.lock_authorities@ == match existing {
        Some(e) => e.lock_authorities@,
        None => Seq::<Pubkey>::empty(),
    }
}

/// Resolves GoverningTokenConfig from GoverningTokenConfigArgs and the
/// instruction accounts: the plugins that the args ask for are the next
/// accounts, the token type is the one of the args, and the lock
/// authorities are kept from the existing configuration.
pub fn resolve_governing_token_config(
    account_info_iter: &mut AccountInfoIter,
    governing_token_config_args: &GoverningTokenConfigArgs,
    existing_governing_token_config: Option<GoverningTokenConfig>,
) -> (r: Result<GoverningTokenConfig, ProgramError>)
    requires
        old(account_info_iter).wf(),
    ensures
        final(account_info_iter).accounts == old(account_info_iter).accounts,
        final(account_info_iter).wf(),
        old(account_info_iter).pos + addin_account_count(*governing_token_config_args)
            <= old(account_info_iter).accounts@.len() ==> {
            &&& r is Ok
            &&& resolved_token_config(
                r->Ok_0,
                old(account_info_iter).accounts@,
                old(account_info_iter).pos as int,
                *governing_token_config_args,
                existing_governing_token_config,
            )
            &&& final(account_info_iter).pos == old(account_info_iter).pos + addin_account_count(
                *governing_token_config_args,
            )
        },
        old(account_info_iter).pos + addin_account_count(*governing_token_config_args)
            > old(account_info_iter).accounts@.len() ==> r == Err::<
            GoverningTokenConfig,
            ProgramError,
        >(ProgramError::NotEnoughAccountKeys),
{
    let voter_weight_addin = if governing_token_config_args.use_voter_weight_addin {
        match next_account_info(account_info_iter) {
            Ok(voter_weight_addin_info) => Some(voter_weight_addin_info.key),
            Err(e) => return Err(e),
        }
    } else {
        None
    };
    let max_voter_weight_addin = if governing_token_config_args.use_max_voter_weight_addin {
        match next_account_info(account_info_iter) {
            Ok(max_voter_weight_addin_info) => Some(max_voter_weight_addin_info.key),
            Err(e) => return Err(e),
        }
    } else {
        None
    };
    let lock_authorities = if let Some(existing_governing_token_config) =
        existing_governing_token_config {
        existing_governing_token_config.lock_authorities
    } else {
        Vec::new()
    };
    let r = GoverningTokenConfig {
        voter_weight_addin,
        max_voter_weight_addin,
        token_type: governing_token_config_args.token_type,
        reserved: [0u8; 4],
        lock_authorities,
    };
    proof {
        broadcast use vstd::array::group_array_axioms;
        assert(r.reserved@ =~= seq![0u8, 0u8, 0u8, 0u8]);
    }
    Ok(r)
}


/// The position of the first occurrence of the key, if any.
pub open spec fn first_position(s: Seq<Pubkey>, k: Pubkey) -> Option<int>
    decreases s.len(),
{
    if s.len() == 0 {
        None
    } else if first_position(s.drop_last(), k) is Some {
        first_position(s.drop_last(), k)
    } else if s.last() == k {
        Some(s.len() - 1)
    } else {
        None
    }
}

/// The first position is the one before which the key does not occur.
proof fn lemma_first_position(s: Seq<Pubkey>, k: Pubkey, i: int)
    requires
        0 <= i < s.len(),
        s[i] == k,
        forall|j: int| 0 <= j < i ==> s[j] != k,
    ensures
        first_position(s, k) == Some(i),
    decreases s.len(),
{
    if i < s.len() - 1 {
        lemma_first_position(s.drop_last(), k, i);
    } else {
        lemma_first_position_none(s.drop_last(), k);
    }
}

/// No position is found for a key that does not occur.
proof fn lemma_first_position_none(s: Seq<Pubkey>, k: Pubkey)
    requires
        forall|j: int| 0 <= j < s.len() ==> s[j] != k,
    ensures
        first_position(s, k) is None,
    decreases s.len(),
{
    if s.len() > 0 {
        lemma_first_position_none(s.drop_last(), k);
    }
}

/// A found position holds the key.
pub proof fn lemma_first_position_holds(s: Seq<Pubkey>, k: Pubkey)
    ensures
        first_position(s, k) matches Some(i) ==> 0 <= i < s.len() && s[i] == k && forall|j: int|
            0 <= j < i ==> s[j] != k,
        first_position(s, k) is None <==> !s.contains(k),
    decreases s.len(),
{
    if s.len() > 0 {
        let d = s.drop_last();
        lemma_first_position_holds(d, k);
        assert forall|j: int| 0 <= j < d.len() implies d[j] == s[j] by {}
        if first_position(d, k) is Some {
            let i = first_position(d, k)->0;
            assert(s[i] == k);
            assert(s.contains(k));
        } else {
            assert forall|j: int| 0 <= j < d.len() implies s[j] != k by {
                if s[j] == k {
                    assert(d[j] == k);
                    assert(d.contains(k));
                }
            }
            if s.last() == k {
                assert(s[s.len() - 1] == k);
                assert(s.contains(k));
            } else {
                assert forall|j: int| 0 <= j < s.len() implies s[j] != k by {}
                assert(!s.contains(k));
            }
        }
    }
}

/// The position of the first occurrence of the key in the vector, if any.
pub fn key_position(v: &Vec<Pubkey>, k: &Pubkey) -> (r: Option<usize>)
    ensures
        match r {
            Some(i) => first_position(v@, *k) == Some(i as int),
            None => first_position(v@, *k) is None,
        },
{
    let mut i: usize = 0;
    while i < v.len()
        invariant
            0 <= i <= v@.len(),
            forall|j: int| 0 <= j < i ==> v@[j] != *k,
        decreases v@.len() - i,
    {
        if v[i] == *k {
            proof {
                lemma_first_position(v@, *k, i as int);
            }
            return Some(i);
        }
        i = i + 1;
    }
    proof {
        lemma_first_position_none(v@, *k);
    }
    None
}

/// The lock authorities after the change that the action asks for, or
/// `None` where the change is refused: an authority is added only where it
/// is not there yet, and its first occurrence is removed only where it is.
pub open spec fn lock_authorities_after(
    lock_authorities: Seq<Pubkey>,
    action: SetConfigItemActionType,
    authority: Pubkey,
) -> Option<Seq<Pubkey>> {
    match action {
        SetConfigItemActionType::Add => if lock_authorities.contains(authority) {
            None
        } else {
            Some(lock_authorities.push(authority))
        },
        SetConfigItemActionType::Remove => match first_position(lock_authorities, authority) {
            Some(i) => Some(lock_authorities.remove(i)),
            None => None,
        },
    }
}

/// The error a refused change of the lock authorities fails with.
pub open spec fn lock_authority_error(action: SetConfigItemActionType) -> ProgramError {
    match action {
        SetConfigItemActionType::Add => gov_err(
            GovernanceError::TokenOwnerRecordLockAuthorityAlreadyExists,
        ),
        SetConfigItemActionType::Remove => gov_err(
            GovernanceError::TokenOwnerRecordLockAuthorityNotFound,
        ),
    }
}

/// Two token configurations that agree on all but their lock authorities.
pub open spec fn same_except_lock_authorities(a: GoverningTokenConfig, b: GoverningTokenConfig) -> bool {
    &&& a.voter_weight_addin == b.voter_weight_addin
    &&& a.max_voter_weight_addin == b.max_voter_weight_addin
    &&& a.token_type == b.token_type
    &&& a.reserved == b.reserved
}

impl GoverningTokenConfig {
    /// Adds or removes a lock authority as the action asks.
    pub fn set_lock_authority(&mut self, action: SetConfigItemActionType, authority: &Pubkey) -> (r:
        Result<(), ProgramError>)
        ensures
            same_except_lock_authorities(*final(self), *old(self)),
            match lock_authorities_after(old(self).lock_authorities@, action, *authority) {
                Some(after) => r is Ok && final(self).lock_authorities@ == after,
                None => r == Err::<(), ProgramError>(lock_authority_error(action))
                    && final(self).lock_authorities@ == old(self).lock_authorities@,
            },
    {
        proof {
            lemma_first_position_holds(self.lock_authorities@, *authority);
        }
        match action {
            SetConfigItemActionType::Add => {
                if key_position(&self.lock_authorities, authority).is_some() {
                    return Err(
                        ProgramError::Governance(
                            GovernanceError::TokenOwnerRecordLockAuthorityAlreadyExists,
                        ),
                    );
                }
                self.lock_authorities.push(*authority);
                Ok(())
            },
            SetConfigItemActionType::Remove => {
                if let Some(lock_authority_index) = key_position(&self.lock_authorities, authority) {
                    self.lock_authorities.remove(lock_authority_index);
                    Ok(())
                } else {
                    Err(
                        ProgramError::Governance(
                            GovernanceError::TokenOwnerRecordLockAuthorityNotFound,
                        ),
                    )
                }
            },
        }
    }
}

} // verus!
