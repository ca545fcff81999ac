//! SetDabraConfig instruction.
use vstd::prelude::*;
use crate::account::{next_account_info, AccountInfoIter, AccountMeta};
use crate::error::{gov_err, GovernanceError, ProgramError};
use crate::pubkey::Pubkey;
use crate::state::dabra::{
    assert_valid_dabra_config_args, dabra_for_authority, get_dabra_data_for_authority,
    valid_dabra_config_args, DabraConfig, DabraConfigArgs, DabraV2,
};
use crate::state::dabra_config::{
    addin_account_count, can_change_config, resolve_governing_token_config,
    resolved_token_config, DabraConfigAccount,
};

verus! {

/// What a successful SetDabraConfig instruction writes: the Dabra, its
/// DabraConfig, and the position of the payer account.
pub struct DabraConfigUpdate {
    pub dabra: DabraV2,
    pub dabra_config: DabraConfigAccount,
    pub payer_index: usize,
}

/// The number of accounts before the system program account: the Dabra, its
/// authority and, where the council mint is used, the council mint and its
/// holding account.
pub open spec fn council_accounts_end(args: DabraConfigArgs) -> int {
    if args.use_council_mint {
        4
    } else {
        2
    }
}

/// The position of the DabraConfig account among the instruction's accounts.
pub fn dabra_config_account_index(args: &DabraConfigArgs) -> (r: usize)
    ensures
        r == council_accounts_end(*args) + 1,
{
    if args.use_council_mint {
        5
    } else {
        3
    }
}

/// The council mint after the change, or the error that refuses it: the
/// council mint can be kept, given as account 2, or removed; it cannot be
/// changed to another mint nor restored.
pub open spec fn council_mint_update(
    d: DabraV2,
    accounts: Seq<AccountMeta>,
    args: DabraConfigArgs,
) -> Result<Option<Pubkey>, ProgramError> {
    if !args.use_council_mint {
        Ok(None)
    } else if accounts.len() < 4 {
        Err(ProgramError::NotEnoughAccountKeys)
    } else {
        match d.config.council_mint {
            Some(c) => if c == accounts[2].key {
                Ok(Some(c))
            } else {
                Err(gov_err(GovernanceError::DabraCouncilMintChangeIsNotSupported))
            },
            None => Err(gov_err(GovernanceError::DabraCouncilMintChangeIsNotSupported)),
        }
    }
}

/// The Dabra after the change: the council mint as updated, the voter
/// weight source and the min weight to create a governance from the args,
/// and the legacy fields zero.
pub open spec fn updated_dabra(d: DabraV2, args: DabraConfigArgs, council_mint: Option<Pubkey>) -> DabraV2 {
    DabraV2 {
        config: DabraConfig {
            council_mint,
            community_mint_max_voter_weight_source: args.community_mint_max_voter_weight_source,
            min_community_weight_to_create_governance: args.min_community_weight_to_create_governance,
            legacy1: 0,
            legacy2: 0,
            ..d.config
        },
        ..d
    }
}

/// The DabraConfig after the change: both token configurations resolved
/// from the args and the accounts that follow the DabraConfig account, their
/// lock authorities kept.
pub open spec fn updated_dabra_config(
    r: DabraConfigAccount,
    c: DabraConfigAccount,
    accounts: Seq<AccountMeta>,
    args: DabraConfigArgs,
) -> bool {
    let start = council_accounts_end(args) + 2;
    &&& r.account_type == c.account_type
    &&& r.dabra == c.dabra
    &&& r.reserved == c.reserved
    &&& resolved_token_config(
        r.community_token_config,
        accounts,
        start,
        args.community_token_config_args,
        Some(c.community_token_config),
    )
    &&& resolved_token_config(
        r.council_token_config,
        accounts,
        start + addin_account_count(args.community_token_config_args),
        args.council_token_config_args,
        Some(c.council_token_config),
    )
}

/// The number of accounts the instruction reads once the council mint is settled.
pub open spec fn set_dabra_config_account_count(args: DabraConfigArgs) -> int {
    council_accounts_end(args) + 3 + addin_account_count(args.community_token_config_args)
        + addin_account_count(args.council_token_config_args)
}

/// What `process_set_dabra_config` returns.
pub open spec fn set_dabra_config_result(
    accounts: Seq<AccountMeta>,
    args: DabraConfigArgs,
    dabra_data: Result<DabraV2, ProgramError>,
    dabra_config_data: Result<DabraConfigAccount, ProgramError>,
    r: Result<DabraConfigUpdate, ProgramError>,
) -> bool {
    let end = council_accounts_end(args);
    let community_end = end + 2 + addin_account_count(args.community_token_config_args);
    if accounts.len() < 2 {
        r == Err::<DabraConfigUpdate, ProgramError>(ProgramError::NotEnoughAccountKeys)
    } else {
        match dabra_data {
            Err(e) => r == Err::<DabraConfigUpdate, ProgramError>(e),
            Ok(d) => match dabra_for_authority(d, accounts[1].key) {
                Err(e) => r == Err::<DabraConfigUpdate, ProgramError>(e),
                Ok(d) => if !accounts[1].is_signer {
                    r == Err::<DabraConfigUpdate, ProgramError>(
                        gov_err(GovernanceError::DabraAuthorityMustSign),
                    )
                } else if valid_dabra_config_args(args) is Err {
                    r == Err::<DabraConfigUpdate, ProgramError>(
                        valid_dabra_config_args(args)->Err_0,
                    )
                } else {
                    match council_mint_update(d, accounts, args) {
                        Err(e) => r == Err::<DabraConfigUpdate, ProgramError>(e),
                        Ok(council_mint) => if accounts.len() < end + 2 {
                            r == Err::<DabraConfigUpdate, ProgramError>(
                                ProgramError::NotEnoughAccountKeys,
                            )
                        } else {
                            match dabra_config_data {
                                Err(e) => r == Err::<DabraConfigUpdate, ProgramError>(e),
                                Ok(c) => if can_change_config(c, args) is Err {
                                    r == Err::<DabraConfigUpdate, ProgramError>(
                                        can_change_config(c, args)->Err_0,
                                    )
                                } else if accounts.len() < set_dabra_config_account_count(args) {
                                    r == Err::<DabraConfigUpdate, ProgramError>(
                                        ProgramError::NotEnoughAccountKeys,
                                    )
                                } else {
                                    r matches Ok(u) && u.dabra == updated_dabra(
                                        d,
                                        args,
                                        council_mint,
                                    ) && updated_dabra_config(u.dabra_config, c, accounts, args)
                                        && u.payer_index == set_dabra_config_account_count(args)
                                        - 1
                                },
                            }
                        },
                    }
                },
            },
        }
    }
}

/// Processes SetDabraConfig instruction.
///
/// The accounts are: 0 the Dabra, 1 the Dabra authority, then where the
/// council mint is used 2 the council mint and 3 its holding account, then
/// the system program, the DabraConfig account (at
/// `dabra_config_account_index`), the plugins of the community token and of
/// the council token that the args ask for, and the payer. `dabra_data` is
/// the Dabra read from account 0 and `dabra_config_data` the DabraConfig of
/// the Dabra read from its account. The result is what to write: the
/// authority must have signed, the args be valid, the council mint be kept
/// or removed and the community token not become a membership token.
pub fn process_set_dabra_config(
    accounts: Vec<AccountMeta>,
    dabra_config_args: DabraConfigArgs,
    dabra_data: Result<DabraV2, ProgramError>,
    dabra_config_data: Result<DabraConfigAccount, ProgramError>,
) -> (r: Result<DabraConfigUpdate, ProgramError>)
    ensures
        set_dabra_config_result(accounts@, dabra_config_args, dabra_data, dabra_config_data, r),
{
    let mut account_info_iter = AccountInfoIter::new(accounts);
    match next_account_info(&mut account_info_iter) {
        Ok(_) => {},
        Err(e) => return Err(e),
    }
    let dabra_authority_info = match next_account_info(&mut account_info_iter) {
        Ok(a) => a,
        Err(e) => return Err(e),
    };
    let dabra_data = match dabra_data {
        Ok(d) => d,
        Err(e) => return Err(e),
    };
    let mut dabra_data = match get_dabra_data_for_authority(dabra_data, &dabra_authority_info.key) {
        Ok(d) => d,
        Err(e) => return Err(e),
    };
    if !dabra_authority_info.is_signer {
        return Err(ProgramError::Governance(GovernanceError::DabraAuthorityMustSign));
    }
    match assert_valid_dabra_config_args(&dabra_config_args) {
        Ok(()) => {},
        Err(e) => return Err(e),
    }
    if dabra_config_args.use_council_mint {
        let council_token_mint_info = match next_account_info(&mut account_info_iter) {
            Ok(a) => a,
            Err(e) => return Err(e),
        };
        match next_account_info(&mut account_info_iter) {
            Ok(_) => {},
            Err(e) => return Err(e),
        }
        if let Some(council_token_mint) = dabra_data.config.council_mint {
            if council_token_mint != council_token_mint_info.key {
                return Err(
                    ProgramError::Governance(GovernanceError::DabraCouncilMintChangeIsNotSupported),
                );
            }
        } else {
            return Err(
                ProgramError::Governance(GovernanceError::DabraCouncilMintChangeIsNotSupported),
            );
        }
    } else {
        dabra_data.config.council_mint = None;
    }
    match next_account_info(&mut account_info_iter) {
        Ok(_) => {},
        Err(e) => return Err(e),
    }
    match next_account_info(&mut account_info_iter) {
        Ok(_) => {},
        Err(e) => return Err(e),
    }
    let dabra_config_data = match dabra_config_data {
        Ok(c) => c,
        Err(e) => return Err(e),
    };
    match dabra_config_data.assert_can_change_config(&dabra_config_args) {
        Ok(()) => {},
        Err(e) => return Err(e),
    }
    let DabraConfigAccount {
        account_type,
        dabra,
        community_token_config: existing_community_token_config,
        council_token_config: existing_council_token_config,
        reserved,
    } = dabra_config_data;
    let community_token_config = match resolve_governing_token_config(
        &mut account_info_iter,
        &dabra_config_args.community_token_config_args,
        Some(existing_community_token_config),
    ) {
        Ok(c) => c,
        Err(e) => return Err(e),
    };
    let council_token_config = match resolve_governing_token_config(
        &mut account_info_iter,
        &dabra_config_args.council_token_config_args,
        Some(existing_council_token_config),
    ) {
        Ok(c) => c,
        Err(e) => return Err(e),
    };
    let dabra_config_data = DabraConfigAccount {
        account_type,
        dabra,
        community_token_config,
        council_token_config,
        reserved,
    };
    let payer_index = account_info_iter.pos;
    match next_account_info(&mut account_info_iter) {
        Ok(_) => {},
        Err(e) => return Err(e),
    }
    dabra_data.config.community_mint_max_voter_weight_source =
        dabra_config_args.community_mint_max_voter_weight_source;
    dabra_data.config.min_community_weight_to_create_governance =
        dabra_config_args.min_community_weight_to_create_governance;
    dabra_data.config.legacy1 = 0;
    dabra_data.config.legacy2 = 0;
    Ok(DabraConfigUpdate { dabra: dabra_data, dabra_config: dabra_config_data, payer_index })
}

} // verus!
