//! SetTokenOwnerRecordLock instruction.
use vstd::prelude::*;
use crate::account::{next_account_info, AccountInfoIter, AccountMeta};
use crate::error::{gov_err, GovernanceError, ProgramError};
use crate::pubkey::Pubkey;
use crate::state::dabra::DabraV2;
use crate::state::dabra_config::{key_position, lemma_first_position_holds, DabraConfigAccount};
use crate::state::token_owner_record::{
    remove_expired_locks, unexpired_locks, upsert_lock, upserted_locks, TokenOwnerRecordLock,
    TokenOwnerRecordLocks,
};

verus! {

/// What `process_set_token_owner_record_lock` returns.
pub open spec fn set_token_owner_record_lock_result(
    accounts: Seq<AccountMeta>,
    lock_id: u8,
    expiry: Option<i64>,
    current_unix_timestamp: i64,
    dabra_data: Result<DabraV2, ProgramError>,
    dabra_config_data: Result<DabraConfigAccount, ProgramError>,
    token_owner_record_data: Result<TokenOwnerRecordLocks, ProgramError>,
    r: Result<TokenOwnerRecordLocks, ProgramError>,
) -> bool {
    let lock = TokenOwnerRecordLock { lock_id, authority: accounts[3].key, expiry };
    if accounts.len() < 6 {
        r == Err::<TokenOwnerRecordLocks, ProgramError>(ProgramError::NotEnoughAccountKeys)
    } else if !accounts[3].is_signer {
        r == Err::<TokenOwnerRecordLocks, ProgramError>(
            gov_err(GovernanceError::TokenOwnerRecordLockAuthorityMustSign),
        )
    } else if lock.spec_is_expired(current_unix_timestamp) {
        r == Err::<TokenOwnerRecordLocks, ProgramError>(
            gov_err(GovernanceError::ExpiredTokenOwnerRecordLock),
        )
    } else {
        match (dabra_data, dabra_config_data, token_owner_record_data) {
            (Err(e), _, _) => r == Err::<TokenOwnerRecordLocks, ProgramError>(e),
            (Ok(_), Err(e), _) => r == Err::<TokenOwnerRecordLocks, ProgramError>(e),
            (Ok(_), Ok(_), Err(e)) => r == Err::<TokenOwnerRecordLocks, ProgramError>(e),
            (Ok(d), Ok(c), Ok(t)) => match c.token_config_for(d, t.governing_token_mint) {
                None => r == Err::<TokenOwnerRecordLocks, ProgramError>(
                    gov_err(GovernanceError::InvalidGoverningTokenMint),
                ),
                Some(tc) => if !tc.lock_authorities@.contains(accounts[3].key) {
                    r == Err::<TokenOwnerRecordLocks, ProgramError>(
                        gov_err(GovernanceError::InvalidTokenOwnerRecordLockAuthority),
                    )
                } else {
                    r matches Ok(rt) && rt.governing_token_mint == t.governing_token_mint
                        && rt.locks@ == upserted_locks(
                        unexpired_locks(t.locks@, current_unix_timestamp),
                        lock,
                    )
                },
            },
        }
    }
}

/// Processes SetTokenOwnerRecordLock instruction.
///
/// The accounts are: 0 the Dabra, 1 its DabraConfig, 2 the token owner
/// record, 3 the lock authority, 4 the payer, 5 the system program.
/// `dabra_data` is the Dabra read from account 0, `dabra_config_data` its
/// DabraConfig read from account 1 and `token_owner_record_data` the token
/// owner record of the Dabra read from account 2. The result is the token
/// owner record to write back: the lock authority must have signed, be a
/// lock authority of the record's governing token and issue a lock that is
/// not expired; the expired locks are dropped and the lock added or updated.
pub fn process_set_token_owner_record_lock(
    accounts: Vec<AccountMeta>,
    lock_id: u8,
    expiry: Option<i64>,
    current_unix_timestamp: i64,
    dabra_data: Result<DabraV2, ProgramError>,
    dabra_config_data: Result<DabraConfigAccount, ProgramError>,
    token_owner_record_data: Result<TokenOwnerRecordLocks, ProgramError>,
) -> (r: Result<TokenOwnerRecordLocks, ProgramError>)
    ensures
        set_token_owner_record_lock_result(
            accounts@,
            lock_id,
            expiry,
            current_unix_timestamp,
            dabra_data,
            dabra_config_data,
            token_owner_record_data,
            r,
        ),
{
    let mut account_info_iter = AccountInfoIter::new(accounts);
    let mut i: usize = 0;
    let mut lock_authority_info = AccountMeta { key: Pubkey { bytes: [0u8; 32] }, is_signer: false };
    while i < 6
        invariant
            0 <= i <= 6,
            account_info_iter.accounts@ == accounts@,
            account_info_iter.pos == i,
            i <= accounts@.len(),
            i > 3 ==> lock_authority_info == accounts@[3],
        decreases 6 - i,
    {
        match next_account_info(&mut account_info_iter) {
            Ok(a) => {
                if i == 3 {
                    lock_authority_info = a;
                }
            },
            Err(e) => return Err(e),
        }
        i = i + 1;
    }
    if !lock_authority_info.is_signer {
        return Err(ProgramError::Governance(GovernanceError::TokenOwnerRecordLockAuthorityMustSign));
    }
    let token_owner_record_lock = TokenOwnerRecordLock {
        lock_id,
        authority: lock_authority_info.key,
        expiry,
    };
    if token_owner_record_lock.is_expired(current_unix_timestamp) {
        return Err(ProgramError::Governance(GovernanceError::ExpiredTokenOwnerRecordLock));
    }
    let dabra_data = match dabra_data {
        Ok(d) => d,
        Err(e) => return Err(e),
    };
    let dabra_config_data = match dabra_config_data {
        Ok(c) => c,
        Err(e) => return Err(e),
    };
    let mut token_owner_record_data = match token_owner_record_data {
        Ok(t) => t,
        Err(e) => return Err(e),
    };
    let token_config = match dabra_config_data.get_token_config(
        &dabra_data,
        &token_owner_record_data.governing_token_mint,
    ) {
        Ok(c) => c,
        Err(e) => return Err(e),
    };
    proof {
        lemma_first_position_holds(token_config.lock_authorities@, lock_authority_info.key);
    }
    if key_position(&token_config.lock_authorities, &lock_authority_info.key).is_none() {
        return Err(ProgramError::Governance(GovernanceError::InvalidTokenOwnerRecordLockAuthority));
    }
    remove_expired_locks(&mut token_owner_record_data.locks, current_unix_timestamp);
    upsert_lock(&mut token_owner_record_data.locks, token_owner_record_lock);
    Ok(token_owner_record_data)
}

} // verus!
