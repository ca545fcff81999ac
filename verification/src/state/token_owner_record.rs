//! Locks on a token owner record: who issued them, their id and when they expire.
use vstd::prelude::*;
use crate::error::{gov_err, GovernanceError, ProgramError};
use crate::pubkey::Pubkey;

verus! {

/// TokenOwnerRecord lock
#[derive(Clone, Copy, Debug)]
pub struct TokenOwnerRecordLock {
    /// Custom lock id which can be used by the authority to issue different locks
    pub lock_id: u8,
    /// The authority issuing the lock
    pub authority: Pubkey,
    /// Optional expiry time stamp
    pub expiry: Option<i64>,
}

/// Whether the lock has the given id and authority.
pub open spec fn lock_matches(l: TokenOwnerRecordLock, lock_id: u8, authority: Pubkey) -> bool {
    l.lock_id == lock_id && l.authority == authority
}

/// Whether no two locks have the same id and authority.
pub open spec fn locks_unique(locks: Seq<TokenOwnerRecordLock>) -> bool {
    forall|i: int, j: int|
        0 <= i < locks.len() && 0 <= j < locks.len() && i != j && #[trigger] lock_matches(
            locks[i],
            locks[j].lock_id,
            locks[j].authority,
        ) ==> false
}

impl TokenOwnerRecordLock {
    /// A lock with an expiry expires at that time; one without never does.
    pub open spec fn spec_is_expired(&self, current_unix_timestamp: i64) -> bool {
        match self.expiry {
            Some(expiry) => expiry <= current_unix_timestamp,
            None => false,
        }
    }

    /// Checks whether the lock is expired
    pub fn is_expired(&self, current_unix_timestamp: i64) -> (r: bool)
        ensures
            r == self.spec_is_expired(current_unix_timestamp),
    {
        if let Some(expiry) = self.expiry {
            expiry <= current_unix_timestamp
        } else {
            false
        }
    }
}

/// The locks that are not expired at the given time, in their order.
pub open spec fn unexpired_locks(locks: Seq<TokenOwnerRecordLock>, now: i64) -> Seq<
    TokenOwnerRecordLock,
> {
    locks.filter(unexpired_at(now))
}

/// The test that keeps the locks not expired at the given time.
pub open spec fn unexpired_at(now: i64) -> spec_fn(TokenOwnerRecordLock) -> bool {
    |l: TokenOwnerRecordLock| !l.spec_is_expired(now)
}

/// Removes the locks that are expired at the given time.
pub fn remove_expired_locks(locks: &mut Vec<TokenOwnerRecordLock>, current_unix_timestamp: i64)
    ensures
        final(locks)@ == unexpired_locks(old(locks)@, current_unix_timestamp),
{
    let ghost pred = unexpired_at(current_unix_timestamp);
    let mut kept: Vec<TokenOwnerRecordLock> = Vec::new();
    let mut i: usize = 0;
    while i < locks.len()
        invariant
            0 <= i <= locks@.len(),
            locks@ == old(locks)@,
            pred == unexpired_at(current_unix_timestamp),
            kept@ == old(locks)@.subrange(0, i as int).filter(pred),
        decreases locks@.len() - i,
    {
        let l = locks[i];
        proof {
            reveal(Seq::filter);
            assert(old(locks)@.subrange(0, i as int).push(l) =~= old(locks)@.subrange(
                0,
                i + 1,
            ));
            assert(old(locks)@.subrange(0, i + 1).drop_last() =~= old(locks)@.subrange(
                0,
                i as int,
            ));
        }
        let ghost s1 = old(locks)@.subrange(0, i + 1);
        assert(s1.last() == l);
        assert(s1.filter(pred) == if pred(l) {
            s1.drop_last().filter(pred).push(l)
        } else {
            s1.drop_last().filter(pred)
        }) by {
            reveal(Seq::filter);
        }
        let e = l.is_expired(current_unix_timestamp);
        if !e {
            kept.push(l);
        }
        i = i + 1;
    }
    assert(old(locks)@.subrange(0, locks@.len() as int) =~= old(locks)@);
    *locks = kept;
}

/// The position of the first lock with the given id and authority, if any.
pub fn find_lock(locks: &Vec<TokenOwnerRecordLock>, lock_id: u8, authority: &Pubkey) -> (r: Option<
    usize,
>)
    ensures
        match r {
            Some(i) => i < locks@.len() && lock_matches(locks@[i as int], lock_id, *authority)
                && forall|j: int| 0 <= j < i ==> !lock_matches(locks@[j], lock_id, *authority),
            None => forall|j: int|
                0 <= j < locks@.len() ==> !lock_matches(locks@[j], lock_id, *authority),
        },
{
    let mut i: usize = 0;
    while i < locks.len()
        invariant
            0 <= i <= locks@.len(),
            forall|j: int| 0 <= j < i ==> !lock_matches(locks@[j], lock_id, *authority),
        decreases locks@.len() - i,
    {
        if locks[i].lock_id == lock_id && locks[i].authority == *authority {
            return Some(i);
        }
        i = i + 1;
    }
    None
}

/// The locks with the lock added, or put in the place of the first lock
/// with its id and authority.
pub open spec fn upserted_locks(locks: Seq<TokenOwnerRecordLock>, lock: TokenOwnerRecordLock) -> Seq<
    TokenOwnerRecordLock,
> {
    match find_first_lock(locks, lock.lock_id, lock.authority) {
        Some(i) => locks.update(i, lock),
        None => locks.push(lock),
    }
}

/// What the program reads and changes of a token owner record: the mint
/// of its governing token and its locks.
#[derive(Clone, Debug)]
pub struct TokenOwnerRecordLocks {
    pub governing_token_mint: Pubkey,
    pub locks: Vec<TokenOwnerRecordLock>,
}

/// Adds the lock, or where a lock with its id and authority exists, sets
/// that lock's expiry to the lock's.
pub fn upsert_lock(locks: &mut Vec<TokenOwnerRecordLock>, lock: TokenOwnerRecordLock)
    ensures
        final(locks)@ == upserted_locks(old(locks)@, lock),
{
    match find_lock(locks, lock.lock_id, &lock.authority) {
        Some(i) => {
            proof {
                lemma_find_first_lock(old(locks)@, lock.lock_id, lock.authority, i as int);
            }
            locks.set(i, lock);
        },
        None => {
            proof {
                lemma_find_first_lock_none(old(locks)@, lock.lock_id, lock.authority);
            }
            locks.push(lock);
        },
    }
}

/// The position of the first lock with the given id and authority, if any.
pub open spec fn find_first_lock(locks: Seq<TokenOwnerRecordLock>, lock_id: u8, authority: Pubkey) -> Option<
    int,
>
    decreases locks.len(),
{
    if locks.len() == 0 {
        None
    } else if lock_matches(locks.last(), lock_id, authority) && find_first_lock(
        locks.drop_last(),
        lock_id,
        authority,
    ) is None {
        Some(locks.len() - 1)
    } else {
        find_first_lock(locks.drop_last(), lock_id, authority)
    }
}

/// The first matching position is the one before which no lock matches.
proof fn lemma_find_first_lock(locks: Seq<TokenOwnerRecordLock>, lock_id: u8, authority: Pubkey, i: int)
    requires
        0 <= i < locks.len(),
        lock_matches(locks[i], lock_id, authority),
        forall|j: int| 0 <= j < i ==> !lock_matches(locks[j], lock_id, authority),
    ensures
        find_first_lock(locks, lock_id, authority) == Some(i),
    decreases locks.len(),
{
    if i < locks.len() - 1 {
        lemma_find_first_lock(locks.drop_last(), lock_id, authority, i);
    } else {
        lemma_find_first_lock_none(locks.drop_last(), lock_id, authority);
    }
}

/// No position is found where no lock matches.
proof fn lemma_find_first_lock_none(locks: Seq<TokenOwnerRecordLock>, lock_id: u8, authority: Pubkey)
    requires
        forall|j: int| 0 <= j < locks.len() ==> !lock_matches(locks[j], lock_id, authority),
    ensures
        find_first_lock(locks, lock_id, authority) is None,
    decreases locks.len(),
{
    if locks.len() > 0 {
        lemma_find_first_lock_none(locks.drop_last(), lock_id, authority);
    }
}

/// Removes the first lock with the given id and authority, or fails with
/// `TokenOwnerRecordLockNotFound` where there is none.
pub fn remove_lock(locks: &mut Vec<TokenOwnerRecordLock>, lock_id: u8, lock_authority: &Pubkey) -> (r:
    Result<(), ProgramError>)
    ensures
        match find_first_lock(old(locks)@, lock_id, *lock_authority) {
            Some(i) => r is Ok && final(locks)@ == old(locks)@.remove(i),
            None => r == Err::<(), ProgramError>(
                gov_err(GovernanceError::TokenOwnerRecordLockNotFound),
            ) && final(locks)@ == old(locks)@,
        },
{
    match find_lock(locks, lock_id, lock_authority) {
        Some(i) => {
            proof {
                lemma_find_first_lock(old(locks)@, lock_id, *lock_authority, i as int);
            }
            locks.remove(i);
            Ok(())
        },
        None => {
            proof {
                lemma_find_first_lock_none(old(locks)@, lock_id, *lock_authority);
            }
            Err(ProgramError::Governance(GovernanceError::TokenOwnerRecordLockNotFound))
        },
    }
}

} // verus!
