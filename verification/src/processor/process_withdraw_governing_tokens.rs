//! WithdrawGoverningTokens instruction.
use vstd::prelude::*;
use vstd::utf8::encode_utf8;
use crate::account::{next_account_info, AccountInfoIter, AccountMeta};
use crate::error::{gov_err, GovernanceError, ProgramError};
use crate::pubkey::{program_address_exists, Pubkey};
use crate::state::dabra::{
    dabra_address_seeds, get_dabra_address_seeds, governing_token_holding_address_seeds, DabraV2,
};
use crate::state::dabra_config::{can_withdraw, token_type_check, DabraConfigAccount};

verus! {

/// What a successful withdrawal does: it transfers the whole deposit from
/// the holding account, signed by the Dabra address derived from the seeds,
/// and then sets the deposit of the token owner record to `deposit_after`.
pub struct GoverningTokenWithdrawal {
    pub amount: u64,
    pub dabra_address_seeds: Vec<Vec<u8>>,
    pub deposit_after: u64,
}

/// Whether the holding address can be derived where the check needs it:
/// the owner signed and the mint is one of the Dabra's.
pub open spec fn withdraw_holding_address_exists(
    program_id: Pubkey,
    accounts: Seq<AccountMeta>,
    dabra_data: Result<DabraV2, ProgramError>,
    governing_token_mint: Result<Pubkey, ProgramError>,
) -> bool {
    accounts.len() >= 7 && accounts[3].is_signer && dabra_data is Ok && governing_token_mint is Ok
        && dabra_data->Ok_0.is_governing_token_mint(governing_token_mint->Ok_0)
        ==> program_address_exists(
        governing_token_holding_address_seeds(accounts[0].key, governing_token_mint->Ok_0),
        program_id@,
    )
}

/// What `process_withdraw_governing_tokens` returns.
pub open spec fn withdraw_result(
    program_id: Pubkey,
    accounts: Seq<AccountMeta>,
    dabra_data: Result<DabraV2, ProgramError>,
    governing_token_mint: Result<Pubkey, ProgramError>,
    dabra_config_data: Result<DabraConfigAccount, ProgramError>,
    token_owner_record_deposit: Result<u64, ProgramError>,
    token_owner_record_check: Result<(), ProgramError>,
    r: Result<GoverningTokenWithdrawal, ProgramError>,
) -> bool {
    if accounts.len() < 7 {
        r == Err::<GoverningTokenWithdrawal, ProgramError>(ProgramError::NotEnoughAccountKeys)
    } else if !accounts[3].is_signer {
        r == Err::<GoverningTokenWithdrawal, ProgramError>(
            gov_err(GovernanceError::GoverningTokenOwnerMustSign),
        )
    } else {
        match (dabra_data, governing_token_mint) {
            (Err(e), _) => r == Err::<GoverningTokenWithdrawal, ProgramError>(e),
            (Ok(_), Err(e)) => r == Err::<GoverningTokenWithdrawal, ProgramError>(e),
            (Ok(d), Ok(m)) => match d.valid_governing_token_mint_and_holding(
                program_id,
                accounts[0].key,
                m,
                accounts[1].key,
            ) {
                Err(e) => r == Err::<GoverningTokenWithdrawal, ProgramError>(e),
                Ok(_) => match dabra_config_data {
                    Err(e) => r == Err::<GoverningTokenWithdrawal, ProgramError>(e),
                    Ok(c) => {
                        let tc = c.token_config_for(d, m);
                        match token_type_check(
                            tc,
                            can_withdraw(tc->0.token_type),
                            GovernanceError::CannotWithdrawMembershipTokens,
                        ) {
                            Err(e) => r == Err::<GoverningTokenWithdrawal, ProgramError>(e),
                            Ok(_) => match token_owner_record_deposit {
                                Err(e) => r == Err::<GoverningTokenWithdrawal, ProgramError>(e),
                                Ok(amount) => match token_owner_record_check {
                                    Err(e) => r == Err::<GoverningTokenWithdrawal, ProgramError>(
                                        e,
                                    ),
                                    Ok(_) => r matches Ok(w) && w.amount == amount && w.deposit_after == 0
                                        && w.dabra_address_seeds.deep_view() == dabra_address_seeds(
                                        encode_utf8(d.name@),
                                    ),
                                },
                            },
                        }
                    },
                },
            },
        }
    }
}

/// Processes WithdrawGoverningTokens instruction.
///
/// The accounts are: 0 the Dabra, 1 the governing token holding account,
/// 2 the destination, 3 the governing token owner, 4 the token owner record,
/// 5 the token program, 6 the DabraConfig. `dabra_data` is the Dabra read
/// from account 0, `governing_token_mint` the mint of the holding account,
/// `dabra_config_data` the DabraConfig of the Dabra read from account 6,
/// `token_owner_record_deposit` the deposit of the owner's token owner
/// record read from account 4, and `token_owner_record_check` the outcome of
/// the record's own withdrawal checks. The owner must have signed, the mint
/// and the holding account be the Dabra's and the token type allow
/// withdrawals; the result is the transfer to make, after which the deposit
/// of the record is zero.
pub fn process_withdraw_governing_tokens(
    program_id: &Pubkey,
    accounts: Vec<AccountMeta>,
    dabra_data: Result<DabraV2, ProgramError>,
    governing_token_mint: Result<Pubkey, ProgramError>,
    dabra_config_data: Result<DabraConfigAccount, ProgramError>,
    token_owner_record_deposit: Result<u64, ProgramError>,
    token_owner_record_check: Result<(), ProgramError>,
) -> (r: Result<GoverningTokenWithdrawal, ProgramError>)
    requires
        withdraw_holding_address_exists(*program_id, accounts@, dabra_data, governing_token_mint),
    ensures
        withdraw_result(
            *program_id,
            accounts@,
            dabra_data,
            governing_token_mint,
            dabra_config_data,
            token_owner_record_deposit,
            token_owner_record_check,
            r,
        ),
{
    let mut account_info_iter = AccountInfoIter::new(accounts);
    let mut i: usize = 0;
    let mut dabra_info = AccountMeta { key: Pubkey { bytes: [0u8; 32] }, is_signer: false };
    let mut holding_info = dabra_info;
    let mut owner_info = dabra_info;
    while i < 7
        invariant
            0 <= i <= 7,
            account_info_iter.accounts@ == accounts@,
            account_info_iter.pos == i,
            i <= accounts@.len(),
            i > 0 ==> dabra_info == accounts@[0],
            i > 1 ==> holding_info == accounts@[1],
            i > 3 ==> owner_info == accounts@[3],
        decreases 7 - i,
    {
        match next_account_info(&mut account_info_iter) {
            Ok(a) => {
                if i == 0 {
                    dabra_info = a;
                } else if i == 1 {
                    holding_info = a;
                } else if i == 3 {
                    owner_info = a;
                }
            },
            Err(e) => return Err(e),
        }
        i = i + 1;
    }
    if !owner_info.is_signer {
        return Err(ProgramError::Governance(GovernanceError::GoverningTokenOwnerMustSign));
    }
    let dabra_data = match dabra_data {
        Ok(d) => d,
        Err(e) => return Err(e),
    };
    let governing_token_mint = match governing_token_mint {
        Ok(m) => m,
        Err(e) => return Err(e),
    };
    match dabra_data.assert_is_valid_governing_token_mint_and_holding(
        program_id,
        &dabra_info.key,
        &governing_token_mint,
        &holding_info.key,
    ) {
        Ok(()) => {},
        Err(e) => return Err(e),
    }
    let dabra_config_data = match dabra_config_data {
        Ok(c) => c,
        Err(e) => return Err(e),
    };
    match dabra_config_data.assert_can_withdraw_governing_token(&dabra_data, &governing_token_mint) {
        Ok(()) => {},
        Err(e) => return Err(e),
    }
    let amount = match token_owner_record_deposit {
        Ok(a) => a,
        Err(e) => return Err(e),
    };
    match token_owner_record_check {
        Ok(()) => {},
        Err(e) => return Err(e),
    }
    let seeds = get_dabra_address_seeds(dabra_data.name.as_str());
    Ok(GoverningTokenWithdrawal { amount, dabra_address_seeds: seeds, deposit_after: 0 })
}

/// Processes WithdrawGoverningTokens instruction as
/// `process_withdraw_governing_tokens` does, or returns `None` where the
/// owner signed and the holding address of a valid mint cannot be derived.
pub fn try_process_withdraw_governing_tokens(
    program_id: &Pubkey,
    accounts: Vec<AccountMeta>,
    dabra_data: Result<DabraV2, ProgramError>,
    governing_token_mint: Result<Pubkey, ProgramError>,
    dabra_config_data: Result<DabraConfigAccount, ProgramError>,
    token_owner_record_deposit: Result<u64, ProgramError>,
    token_owner_record_check: Result<(), ProgramError>,
) -> (r: Option<Result<GoverningTokenWithdrawal, ProgramError>>)
    ensures
        r is None <==> !withdraw_holding_address_exists(
            *program_id,
            accounts@,
            dabra_data,
            governing_token_mint,
        ),
        r matches Some(res) ==> withdraw_result(
            *program_id,
            accounts@,
            dabra_data,
            governing_token_mint,
            dabra_config_data,
            token_owner_record_deposit,
            token_owner_record_check,
            res,
        ),
{
    if accounts.len() >= 7 && accounts[3].is_signer {
        match (&dabra_data, &governing_token_mint) {
            (Ok(d), Ok(m)) => {
                match d.try_assert_is_valid_governing_token_mint_and_holding(
                    program_id,
                    &accounts[0].key,
                    m,
                    &accounts[1].key,
                ) {
                    None => return None,
                    Some(_) => {},
                }
            },
            _ => {},
        }
    }
    Some(
        process_withdraw_governing_tokens(
            program_id,
            accounts,
            dabra_data,
            governing_token_mint,
            dabra_config_data,
            token_owner_record_deposit,
            token_owner_record_check,
        ),
    )
}

} // verus!
