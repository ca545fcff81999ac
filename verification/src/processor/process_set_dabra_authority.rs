//! SetDabraAuthority instruction.
use vstd::prelude::*;
use crate::account::{next_account_info, AccountInfoIter, AccountMeta};
use crate::error::{gov_err, GovernanceError, ProgramError};
use crate::state::dabra::{
    dabra_for_authority, get_dabra_data_for_authority, DabraV2, SetDabraAuthorityAction,
};

verus! {

/// The result of `process_set_dabra_authority`.
pub open spec fn set_dabra_authority_result(
    accounts: Seq<AccountMeta>,
    action: SetDabraAuthorityAction,
    dabra_data: Result<DabraV2, ProgramError>,
    governance_check: Result<(), ProgramError>,
) -> Result<DabraV2, ProgramError> {
    if accounts.len() < 2 {
        Err(ProgramError::NotEnoughAccountKeys)
    } else {
        match dabra_data {
            Err(e) => Err(e),
            Ok(d) => match dabra_for_authority(d, accounts[1].key) {
                Err(e) => Err(e),
                Ok(d) => if !accounts[1].is_signer {
                    Err(gov_err(GovernanceError::DabraAuthorityMustSign))
                } else if action == SetDabraAuthorityAction::Remove {
                    Ok(DabraV2 { authority: None, ..d })
                } else if accounts.len() < 3 {
                    Err(ProgramError::NotEnoughAccountKeys)
                } else if action == SetDabraAuthorityAction::SetChecked && governance_check is Err {
                    Err(governance_check->Err_0)
                } else {
                    Ok(DabraV2 { authority: Some(accounts[2].key), ..d })
                },
            },
        }
    }
}

/// Processes SetDabraAuthority instruction.
///
/// The accounts are: 0 the Dabra, 1 the Dabra authority, 2 the new
/// authority (unless the authority is removed). `dabra_data` is the Dabra
/// read from account 0, and `governance_check` the outcome of checking that
/// account 2 is a governance of the Dabra, which counts for `SetChecked`
/// alone. The result is the Dabra to write back to account 0: the authority
/// must have signed, and only the authority changes.
pub fn process_set_dabra_authority(
    accounts: Vec<AccountMeta>,
    action: SetDabraAuthorityAction,
    dabra_data: Result<DabraV2, ProgramError>,
    governance_check: Result<(), ProgramError>,
) -> (r: Result<DabraV2, ProgramError>)
    ensures
        r == set_dabra_authority_result(accounts@, action, dabra_data, governance_check),
{
    let mut account_info_iter = AccountInfoIter::new(accounts);
    match next_account_info(&mut account_info_iter) {
        Ok(_) => {},
        Err(e) => return Err(e),
    }
    let dabra_authority_info = match next_account_info(&mut account_info_iter) {
        Ok(a) => a,
        Err(e) => return Err(e),
    };
    let dabra_data = match dabra_data {
        Ok(d) => d,
        Err(e) => return Err(e),
    };
    let mut dabra_data = match get_dabra_data_for_authority(dabra_data, &dabra_authority_info.key) {
        Ok(d) => d,
        Err(e) => return Err(e),
    };
    if !dabra_authority_info.is_signer {
        return Err(ProgramError::Governance(GovernanceError::DabraAuthorityMustSign));
    }
    let new_dabra_authority = match action {
        SetDabraAuthorityAction::SetUnchecked | SetDabraAuthorityAction::SetChecked => {
            let new_dabra_authority_info = match next_account_info(&mut account_info_iter) {
                Ok(a) => a,
                Err(e) => return Err(e),
            };
            if action == SetDabraAuthorityAction::SetChecked {
                if let Err(e) = governance_check {
                    return Err(e);
                }
            }
            Some(new_dabra_authority_info.key)
        },
        SetDabraAuthorityAction::Remove => None,
    };
    dabra_data.authority = new_dabra_authority;
    Ok(dabra_data)
}

} // verus!
