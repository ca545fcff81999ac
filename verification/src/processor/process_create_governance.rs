//! CreateGovernance instruction.
use vstd::prelude::*;
use crate::account::{next_account_info, AccountInfoIter, AccountMeta};
use crate::error::{gov_err, GovernanceError, ProgramError};
use crate::pubkey::Pubkey;
use crate::state::dabra::DabraV2;

verus! {

/// The governance account that creating a governance creates: of the Dabra
/// (account 0), for the governance seed (account 2), at the address derived
/// from both, with no signatories required and no active proposals.
#[derive(Clone, Copy, Debug)]
pub struct NewGovernance {
    pub dabra: Pubkey,
    pub governance_seed: Pubkey,
    pub required_signatories_count: u8,
    pub active_proposal_count: u64,
}

/// The governance to create for the accounts.
pub open spec fn new_governance(accounts: Seq<AccountMeta>) -> NewGovernance {
    NewGovernance {
        dabra: accounts[0].key,
        governance_seed: accounts[2].key,
        required_signatories_count: 0,
        active_proposal_count: 0,
    }
}

/// What `process_create_governance` returns.
pub open spec fn create_governance_result(
    accounts: Seq<AccountMeta>,
    rent: Result<(), ProgramError>,
    create_governance_args_check: Result<(), ProgramError>,
    dabra_data: Result<DabraV2, ProgramError>,
    token_owner_record_check: Result<(), ProgramError>,
) -> Result<NewGovernance, ProgramError> {
    if accounts.len() < 6 {
        Err(ProgramError::NotEnoughAccountKeys)
    } else if rent is Err {
        Err(rent->Err_0)
    } else if accounts.len() < 7 {
        Err(ProgramError::NotEnoughAccountKeys)
    } else if create_governance_args_check is Err {
        Err(create_governance_args_check->Err_0)
    } else {
        match dabra_data {
            Err(e) => Err(e),
            Ok(d) => if d.authority == Some(accounts[6].key) {
                if accounts[6].is_signer {
                    Ok(new_governance(accounts))
                } else {
                    Err(gov_err(GovernanceError::DabraAuthorityMustSign))
                }
            } else {
                match token_owner_record_check {
                    Err(e) => Err(e),
                    Ok(()) => Ok(new_governance(accounts)),
                }
            },
        }
    }
}

/// Processes CreateGovernance instruction.
///
/// The accounts are: 0 the Dabra, 1 the governance, 2 the governance seed,
/// 3 the token owner record, 4 the payer, 5 the system program, 6 the create
/// authority, then those that the token owner record's checks read. `rent`
/// is the outcome of reading the rent sysvar, `create_governance_args_check`
/// that of checking the governance config, `dabra_data` the Dabra read from
/// account 0 and `token_owner_record_check` the outcome of checking that the
/// owner or delegate of the token owner record signed and has the weight to
/// create a governance, which counts only where the create authority is not
/// the Dabra's. The result is the governance account to create.
pub fn process_create_governance(
    accounts: Vec<AccountMeta>,
    rent: Result<(), ProgramError>,
    create_governance_args_check: Result<(), ProgramError>,
    dabra_data: Result<DabraV2, ProgramError>,
    token_owner_record_check: Result<(), ProgramError>,
) -> (r: Result<NewGovernance, ProgramError>)
    ensures
        r == create_governance_result(
            accounts@,
            rent,
            create_governance_args_check,
            dabra_data,
            token_owner_record_check,
        ),
{
    let mut account_info_iter = AccountInfoIter::new(accounts);
    let mut i: usize = 0;
    let mut dabra_key = Pubkey { bytes: [0u8; 32] };
    let mut governance_seed = dabra_key;
    while i < 6
        invariant
            0 <= i <= 6,
            account_info_iter.accounts@ == accounts@,
            account_info_iter.pos == i,
            i <= accounts@.len(),
            i > 0 ==> dabra_key == accounts@[0].key,
            i > 2 ==> governance_seed == accounts@[2].key,
        decreases 6 - i,
    {
        match next_account_info(&mut account_info_iter) {
            Ok(a) => {
                if i == 0 {
                    dabra_key = a.key;
                } else if i == 2 {
                    governance_seed = a.key;
                }
            },
            Err(e) => return Err(e),
        }
        i = i + 1;
    }
    match rent {
        Ok(()) => {},
        Err(e) => return Err(e),
    }
    let create_authority_info = match next_account_info(&mut account_info_iter) {
        Ok(a) => a,
        Err(e) => return Err(e),
    };
    match create_governance_args_check {
        Ok(()) => {},
        Err(e) => return Err(e),
    }
    let dabra_data = match dabra_data {
        Ok(d) => d,
        Err(e) => return Err(e),
    };
    match dabra_data.assert_create_authority_can_create_governance(
        &create_authority_info.key,
        create_authority_info.is_signer,
        token_owner_record_check,
    ) {
        Ok(()) => {},
        Err(e) => return Err(e),
    }
    Ok(
        NewGovernance {
            dabra: dabra_key,
            governance_seed,
            required_signatories_count: 0,
            active_proposal_count: 0,
        },
    )
}

} // verus!
