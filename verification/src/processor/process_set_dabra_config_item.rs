//! SetDabraConfigItem instruction.
use vstd::prelude::*;
use crate::account::{next_account_info, AccountInfoIter, AccountMeta};
use crate::error::{gov_err, GovernanceError, ProgramError};
use crate::pubkey::Pubkey;
use crate::state::dabra::{
    dabra_for_authority, get_dabra_data_for_authority, DabraV2, SetDabraConfigItemArgs,
};
use crate::state::dabra_config::{
    lock_authorities_after, lock_authority_error, same_except_lock_authorities,
    token_config_side, DabraConfigAccount, TokenConfigSide,
};

verus! {

/// The account `r` is `c` with the lock authorities of the token
/// configuration that the mint selects replaced by `after`.
pub open spec fn config_with_lock_authorities(
    r: DabraConfigAccount,
    c: DabraConfigAccount,
    dabra_data: DabraV2,
    mint: Pubkey,
    after: Seq<Pubkey>,
) -> bool {
    &&& r.account_type == c.account_type
    &&& r.dabra == c.dabra
    &&& r.reserved == c.reserved
    &&& match token_config_side(dabra_data, mint) {
        Some(TokenConfigSide::Community) => {
            &&& same_except_lock_authorities(r.community_token_config, c.community_token_config)
            &&& r.community_token_config.lock_authorities@ == after
            &&& r.council_token_config == c.council_token_config
        },
        Some(TokenConfigSide::Council) => {
            &&& same_except_lock_authorities(r.council_token_config, c.council_token_config)
            &&& r.council_token_config.lock_authorities@ == after
            &&& r.community_token_config == c.community_token_config
        },
        None => false,
    }
}

/// What `process_set_dabra_config_item` returns.
pub open spec fn set_dabra_config_item_result(
    accounts: Seq<AccountMeta>,
    args: SetDabraConfigItemArgs,
    dabra_data: Result<DabraV2, ProgramError>,
    dabra_config_data: Result<DabraConfigAccount, ProgramError>,
    r: Result<DabraConfigAccount, ProgramError>,
) -> bool {
    if accounts.len() < 5 {
        r == Err::<DabraConfigAccount, ProgramError>(ProgramError::NotEnoughAccountKeys)
    } else {
        match dabra_data {
            Err(e) => r == Err::<DabraConfigAccount, ProgramError>(e),
            Ok(d) => match dabra_for_authority(d, accounts[2].key) {
                Err(e) => r == Err::<DabraConfigAccount, ProgramError>(e),
                Ok(d) => if !accounts[2].is_signer {
                    r == Err::<DabraConfigAccount, ProgramError>(
                        gov_err(GovernanceError::DabraAuthorityMustSign),
                    )
                } else {
                    match dabra_config_data {
                        Err(e) => r == Err::<DabraConfigAccount, ProgramError>(e),
                        Ok(c) => match args {
                            SetDabraConfigItemArgs::TokenOwnerRecordLockAuthority {
                                action,
                                governing_token_mint,
                                authority,
                            } => match c.token_config_for(d, governing_token_mint) {
                                None => r == Err::<DabraConfigAccount, ProgramError>(
                                    gov_err(GovernanceError::InvalidGoverningTokenMint),
                                ),
                                Some(tc) => match lock_authorities_after(
                                    tc.lock_authorities@,
                                    action,
                                    authority,
                                ) {
                                    None => r == Err::<DabraConfigAccount, ProgramError>(
                                        lock_authority_error(action),
                                    ),
                                    Some(after) => r matches Ok(rc)
                                        && config_with_lock_authorities(
                                        rc,
                                        c,
                                        d,
                                        governing_token_mint,
                                        after,
                                    ),
                                },
                            },
                        },
                    }
                },
            },
        }
    }
}

/// Processes SetDabraConfigItem instruction.
///
/// The accounts are: 0 the Dabra, 1 its DabraConfig, 2 the Dabra authority,
/// 3 the payer, 4 the system program. `dabra_data` is the Dabra read from
/// account 0 and `dabra_config_data` the DabraConfig of the Dabra read from
/// account 1. The result is the DabraConfig to write back: the authority
/// must have signed, and the lock authority is added to or removed from the
/// token configuration of the mint, with nothing else changed.
pub fn process_set_dabra_config_item(
    accounts: Vec<AccountMeta>,
    args: SetDabraConfigItemArgs,
    dabra_data: Result<DabraV2, ProgramError>,
    dabra_config_data: Result<DabraConfigAccount, ProgramError>,
) -> (r: Result<DabraConfigAccount, ProgramError>)
    ensures
        set_dabra_config_item_result(accounts@, args, dabra_data, dabra_config_data, r),
{
    let mut account_info_iter = AccountInfoIter::new(accounts);
    let mut i: usize = 0;
    let mut dabra_authority_info = AccountMeta {
        key: Pubkey { bytes: [0u8; 32] },
        is_signer: false,
    };
    while i < 5
        invariant
            0 <= i <= 5,
            account_info_iter.accounts@ == accounts@,
            account_info_iter.pos == i,
            i <= accounts@.len(),
            i > 2 ==> dabra_authority_info == accounts@[2],
        decreases 5 - i,
    {
        match next_account_info(&mut account_info_iter) {
            Ok(a) => {
                if i == 2 {
                    dabra_authority_info = a;
                }
            },
            Err(e) => return Err(e),
        }
        i = i + 1;
    }
    let dabra_data = match dabra_data {
        Ok(d) => d,
        Err(e) => return Err(e),
    };
    let dabra_data = match get_dabra_data_for_authority(dabra_data, &dabra_authority_info.key) {
        Ok(d) => d,
        Err(e) => return Err(e),
    };
    if !dabra_authority_info.is_signer {
        return Err(ProgramError::Governance(GovernanceError::DabraAuthorityMustSign));
    }
    let mut dabra_config_data = match dabra_config_data {
        Ok(c) => c,
        Err(e) => return Err(e),
    };
    match args {
        SetDabraConfigItemArgs::TokenOwnerRecordLockAuthority {
            action,
            governing_token_mint,
            authority,
        } => {
            let token_config = match dabra_config_data.get_token_config_mut(
                &dabra_data,
                &governing_token_mint,
            ) {
                Ok(c) => c,
                Err(e) => return Err(e),
            };
            match token_config.set_lock_authority(action, &authority) {
                Ok(()) => {},
                Err(e) => return Err(e),
            }
        },
    }
    Ok(dabra_config_data)
}

} // verus!
