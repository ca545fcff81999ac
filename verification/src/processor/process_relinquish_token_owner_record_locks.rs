//! RelinquishTokenOwnerRecordLocks instruction.
use vstd::prelude::*;
use crate::account::{next_account_info, AccountInfoIter, AccountMeta};
use crate::error::{gov_err, GovernanceError, ProgramError};
use crate::pubkey::Pubkey;
use crate::state::dabra::DabraV2;
use crate::state::dabra_config::{key_position, lemma_first_position_holds, DabraConfigAccount};
use crate::state::token_owner_record::{
    find_first_lock, remove_expired_locks, remove_lock, unexpired_locks, TokenOwnerRecordLock,
    TokenOwnerRecordLocks,
};

verus! {

/// The locks after removing, in turn, the first lock of the authority with
/// each of the ids; fails where one of them is not found.
pub open spec fn locks_after_removals(
    locks: Seq<TokenOwnerRecordLock>,
    lock_ids: Seq<u8>,
    authority: Pubkey,
) -> Result<Seq<TokenOwnerRecordLock>, ProgramError>
    decreases lock_ids.len(),
{
    if lock_ids.len() == 0 {
        Ok(locks)
    } else {
        match locks_after_removals(locks, lock_ids.drop_last(), authority) {
            Err(e) => Err(e),
            Ok(l) => match find_first_lock(l, lock_ids.last(), authority) {
                Some(i) => Ok(l.remove(i)),
                None => Err(gov_err(GovernanceError::TokenOwnerRecordLockNotFound)),
            },
        }
    }
}

/// The locks after the locks are relinquished, before expired locks are dropped.
pub open spec fn relinquished_locks(
    accounts: Seq<AccountMeta>,
    lock_ids: Option<Seq<u8>>,
    d: DabraV2,
    c: DabraConfigAccount,
    t: TokenOwnerRecordLocks,
) -> Result<Seq<TokenOwnerRecordLock>, ProgramError> {
    match lock_ids {
        None => Ok(t.locks@),
        Some(ids) => if accounts.len() < 4 {
            Err(ProgramError::NotEnoughAccountKeys)
        } else {
            match c.token_config_for(d, t.governing_token_mint) {
                None => Err(gov_err(GovernanceError::InvalidGoverningTokenMint)),
                Some(tc) => if tc.lock_authorities@.contains(accounts[3].key)
                    && !accounts[3].is_signer {
                    Err(gov_err(GovernanceError::TokenOwnerRecordLockAuthorityMustSign))
                } else {
                    locks_after_removals(t.locks@, ids, accounts[3].key)
                },
            }
        },
    }
}

/// What `process_relinquish_token_owner_record_locks` returns.
pub open spec fn relinquish_result(
    accounts: Seq<AccountMeta>,
    lock_ids: Option<Seq<u8>>,
    dabra_data: Result<DabraV2, ProgramError>,
    dabra_config_data: Result<DabraConfigAccount, ProgramError>,
    token_owner_record_data: Result<TokenOwnerRecordLocks, ProgramError>,
    current_unix_timestamp: Result<i64, ProgramError>,
    r: Result<TokenOwnerRecordLocks, ProgramError>,
) -> bool {
    if accounts.len() < 3 {
        r == Err::<TokenOwnerRecordLocks, ProgramError>(ProgramError::NotEnoughAccountKeys)
    } else {
        match (dabra_data, dabra_config_data, token_owner_record_data) {
            (Err(e), _, _) => r == Err::<TokenOwnerRecordLocks, ProgramError>(e),
            (Ok(_), Err(e), _) => r == Err::<TokenOwnerRecordLocks, ProgramError>(e),
            (Ok(_), Ok(_), Err(e)) => r == Err::<TokenOwnerRecordLocks, ProgramError>(e),
            (Ok(d), Ok(c), Ok(t)) => match relinquished_locks(accounts, lock_ids, d, c, t) {
                Err(e) => r == Err::<TokenOwnerRecordLocks, ProgramError>(e),
                Ok(locks) => match current_unix_timestamp {
                    Err(e) => r == Err::<TokenOwnerRecordLocks, ProgramError>(e),
                    Ok(now) => r matches Ok(rt) && rt.governing_token_mint
                        == t.governing_token_mint && rt.locks@ == unexpired_locks(locks, now),
                },
            },
        }
    }
}

/// Processes RelinquishTokenOwnerRecordLocks instruction.
///
/// The accounts are: 0 the Dabra, 1 its DabraConfig, 2 the token owner
/// record and, where lock ids are given, 3 the lock authority. The data
/// arguments are what was read from accounts 0 to 2, and
/// `current_unix_timestamp` the time of the clock. The result is the token
/// owner record to write back: a lock authority that is configured for the
/// record's governing token must have signed; each given lock of the
/// authority is removed, and then the expired locks are dropped.
pub fn process_relinquish_token_owner_record_locks(
    accounts: Vec<AccountMeta>,
    lock_ids: Option<Vec<u8>>,
    dabra_data: Result<DabraV2, ProgramError>,
    dabra_config_data: Result<DabraConfigAccount, ProgramError>,
    token_owner_record_data: Result<TokenOwnerRecordLocks, ProgramError>,
    current_unix_timestamp: Result<i64, ProgramError>,
) -> (r: Result<TokenOwnerRecordLocks, ProgramError>)
    ensures
        relinquish_result(
            accounts@,
            match lock_ids {
                Some(v) => Some(v@),
                None => None,
            },
            dabra_data,
            dabra_config_data,
            token_owner_record_data,
            current_unix_timestamp,
            r,
        ),
{
    let mut account_info_iter = AccountInfoIter::new(accounts);
    let mut i: usize = 0;
    while i < 3
        invariant
            0 <= i <= 3,
            account_info_iter.accounts@ == accounts@,
            account_info_iter.pos == i,
            i <= accounts@.len(),
        decreases 3 - i,
    {
        match next_account_info(&mut account_info_iter) {
            Ok(_) => {},
            Err(e) => return Err(e),
        }
        i = i + 1;
    }
    let dabra_data = match dabra_data {
        Ok(d) => d,
        Err(e) => return Err(e),
    };
    let dabra_config_data = match dabra_config_data {
        Ok(c) => c,
        Err(e) => return Err(e),
    };
    let mut token_owner_record_data = match token_owner_record_data {
        Ok(t) => t,
        Err(e) => return Err(e),
    };
    let ghost t0 = token_owner_record_data;
    if let Some(lock_ids) = lock_ids {
        let token_owner_record_lock_authority_info = match next_account_info(
            &mut account_info_iter,
        ) {
            Ok(a) => a,
            Err(e) => return Err(e),
        };
        let token_config = match dabra_config_data.get_token_config(
            &dabra_data,
            &token_owner_record_data.governing_token_mint,
        ) {
            Ok(c) => c,
            Err(e) => return Err(e),
        };
        proof {
            lemma_first_position_holds(
                token_config.lock_authorities@,
                token_owner_record_lock_authority_info.key,
            );
        }
        if key_position(
            &token_config.lock_authorities,
            &token_owner_record_lock_authority_info.key,
        ).is_some() {
            if !token_owner_record_lock_authority_info.is_signer {
                return Err(
                    ProgramError::Governance(
                        GovernanceError::TokenOwnerRecordLockAuthorityMustSign,
                    ),
                );
            }
        }
        let authority = token_owner_record_lock_authority_info.key;
        let mut j: usize = 0;
        #[verifier::loop_isolation(false)]
        while j < lock_ids.len()
            invariant
                0 <= j <= lock_ids@.len(),
                token_owner_record_data.governing_token_mint == t0.governing_token_mint,
                locks_after_removals(t0.locks@, lock_ids@.subrange(0, j as int), authority) == Ok::<
                    Seq<TokenOwnerRecordLock>,
                    ProgramError,
                >(token_owner_record_data.locks@),
            decreases lock_ids@.len() - j,
        {
            let ghost before = token_owner_record_data.locks@;
            assert(lock_ids@.subrange(0, j + 1).drop_last() =~= lock_ids@.subrange(0, j as int));
            match remove_lock(&mut token_owner_record_data.locks, lock_ids[j], &authority) {
                Ok(()) => {},
                Err(e) => {
                    assert(locks_after_removals(
                        t0.locks@,
                        lock_ids@.subrange(0, j + 1),
                        authority,
                    ) == Err::<Seq<TokenOwnerRecordLock>, ProgramError>(e));
                    proof {
                        lemma_removals_fail_prefix(
                            t0.locks@,
                            lock_ids@,
                            authority,
                            j + 1,
                        );
                    }
                    return Err(e);
                },
            }
            j = j + 1;
        }
        assert(lock_ids@.subrange(0, lock_ids@.len() as int) =~= lock_ids@);
    }
    let now = match current_unix_timestamp {
        Ok(t) => t,
        Err(e) => return Err(e),
    };
    remove_expired_locks(&mut token_owner_record_data.locks, now);
    Ok(token_owner_record_data)
}

/// Once a removal fails, removing more ids fails with the same error.
proof fn lemma_removals_fail_prefix(
    locks: Seq<TokenOwnerRecordLock>,
    ids: Seq<u8>,
    authority: Pubkey,
    k: int,
)
    requires
        0 <= k <= ids.len(),
        locks_after_removals(locks, ids.subrange(0, k), authority) is Err,
    ensures
        locks_after_removals(locks, ids, authority) == locks_after_removals(
            locks,
            ids.subrange(0, k),
            authority,
        ),
    decreases ids.len() - k,
{
    if k < ids.len() {
        assert(ids.subrange(0, k + 1).drop_last() =~= ids.subrange(0, k));
        lemma_removals_fail_prefix(locks, ids, authority, k + 1);
    } else {
        assert(ids.subrange(0, k) =~= ids);
    }
}

} // verus!
