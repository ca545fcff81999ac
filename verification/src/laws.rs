//! Properties that hold across the program's rules.
use vstd::prelude::*;
use crate::account::AccountMeta;
use crate::error::{gov_err, GovernanceError, ProgramError};
use crate::pubkey::Pubkey;
use crate::processor::process_create_dabra::{created_dabra, create_dabra_plan, CreateDabraAction, CreateDabraPlan};
use crate::processor::process_create_governance::create_governance_result;
use crate::processor::process_relinquish_token_owner_record_locks::relinquish_result;
use crate::processor::process_set_token_owner_record_lock::set_token_owner_record_lock_result;
use crate::pubkey::program_address;
use crate::state::dabra::governing_token_holding_address_seeds;
use crate::state::token_owner_record::TokenOwnerRecordLocks;
use crate::processor::process_withdraw_governing_tokens::{
    withdraw_holding_address_exists, withdraw_result, GoverningTokenWithdrawal,
};
use crate::processor::process_set_dabra_authority::set_dabra_authority_result;
use crate::processor::process_set_dabra_config::{
    council_mint_update, set_dabra_config_result, updated_dabra, DabraConfigUpdate,
};
use crate::processor::process_set_dabra_config_item::{
    config_with_lock_authorities, set_dabra_config_item_result,
};
use crate::state::dabra::{
    dabra_for_authority, dabra_v1_from_v2, dabra_v2_from_v1, is_zeroed_128, v2_zero_reserved,
    DabraConfigArgs, DabraV1, DabraV2, SetDabraAuthorityAction, SetDabraConfigItemArgs,
};
use crate::state::dabra_config::{
    config_account_max_size, DabraConfigAccount, can_deposit, can_revoke, can_withdraw, first_position, lemma_first_position_holds,
    lock_authorities_after, GoverningTokenType,
};
use crate::state::enums::{GovernanceAccountType, SetConfigItemActionType, VoteKind};
use crate::state::token_owner_record::{
    find_first_lock, lock_matches, locks_unique, unexpired_at, unexpired_locks, upserted_locks,
    TokenOwnerRecordLock,
};

verus! {

/// A veto is cast by the opposite voting population: in a Dabra with a
/// council mint other than its community mint, the veto of a vote with the
/// community mint is decided on a council proposal and the other way round,
/// so that the opposite of the opposite population is the population itself.
/// An electorate vote is decided on a proposal of its own mint.
pub proof fn law_veto_targets_opposite_population(d: DabraV2, mint: Pubkey)
    requires
        d.config.council_mint is Some,
        d.config.council_mint != Some(d.community_mint),
        d.is_governing_token_mint(mint),
    ensures
        d.proposal_governing_token_mint_for_vote(mint, VoteKind::Electorate) == Ok::<
            Pubkey,
            ProgramError,
        >(mint),
        d.proposal_governing_token_mint_for_vote(mint, VoteKind::Veto) matches Ok(other) && other
            != mint && d.is_governing_token_mint(other) && d.proposal_governing_token_mint_for_vote(
            other,
            VoteKind::Veto,
        ) == Ok::<Pubkey, ProgramError>(mint),
{
}

/// A veto with a mint that is neither the community nor the council mint
/// of the Dabra is refused.
pub proof fn law_veto_needs_governing_mint(d: DabraV2, mint: Pubkey)
    requires
        !d.is_governing_token_mint(mint),
    ensures
        d.proposal_governing_token_mint_for_vote(mint, VoteKind::Veto) == Err::<
            Pubkey,
            ProgramError,
        >(gov_err(GovernanceError::InvalidGoverningTokenMint)),
{
}

/// The token types grant the rights their documentation lists: liquid
/// tokens can be deposited and withdrawn but not revoked, membership tokens
/// deposited and revoked but not withdrawn, dormant tokens withdrawn only.
/// So no token can be both withdrawn by its owner and revoked by the Dabra.
pub proof fn law_token_type_rights(t: GoverningTokenType)
    ensures
        t == GoverningTokenType::Liquid ==> can_deposit(t) && can_withdraw(t) && !can_revoke(t),
        t == GoverningTokenType::Membership ==> can_deposit(t) && !can_withdraw(t) && can_revoke(
            t,
        ),
        t == GoverningTokenType::Dormant ==> !can_deposit(t) && can_withdraw(t) && !can_revoke(t),
        !(can_withdraw(t) && can_revoke(t)),
{
}

/// Adding a lock authority that is not there and then removing it gives
/// back the lock authorities as they were; adding it a second time is refused.
pub proof fn law_add_then_remove_lock_authority(lock_authorities: Seq<Pubkey>, authority: Pubkey)
    requires
        !lock_authorities.contains(authority),
    ensures
        lock_authorities_after(lock_authorities, SetConfigItemActionType::Add, authority)
            == Some(lock_authorities.push(authority)),
        lock_authorities_after(
            lock_authorities.push(authority),
            SetConfigItemActionType::Add,
            authority,
        ) is None,
        lock_authorities_after(
            lock_authorities.push(authority),
            SetConfigItemActionType::Remove,
            authority,
        ) == Some(lock_authorities),
{
    let s = lock_authorities.push(authority);
    assert(s[s.len() - 1] == authority);
    assert(s.contains(authority));
    lemma_first_position_holds(s, authority);
    lemma_first_position_holds(lock_authorities, authority);
    let i = first_position(s, authority)->0;
    if i < s.len() - 1 {
        assert(lock_authorities[i] == authority);
        assert(lock_authorities.contains(authority));
    }
    assert(s.remove(s.len() - 1) =~= lock_authorities);
}

/// Adding lock authorities never makes one occur twice: a lock authority
/// that is already there cannot be added.
pub proof fn law_lock_authorities_stay_unique(
    lock_authorities: Seq<Pubkey>,
    action: SetConfigItemActionType,
    authority: Pubkey,
)
    requires
        lock_authorities.no_duplicates(),
    ensures
        lock_authorities_after(lock_authorities, action, authority) matches Some(after)
            ==> after.no_duplicates(),
{
    lemma_first_position_holds(lock_authorities, authority);
    match lock_authorities_after(lock_authorities, action, authority) {
        Some(after) => {
            if action == SetConfigItemActionType::Add {
                assert forall|i: int, j: int|
                    0 <= i < after.len() && 0 <= j < after.len() && i != j implies after[i]
                    != after[j] by {
                    if i == after.len() - 1 {
                        assert(lock_authorities[j] == after[j]);
                    } else if j == after.len() - 1 {
                        assert(lock_authorities[i] == after[i]);
                    }
                }
            } else {
                let k = first_position(lock_authorities, authority)->0;
                assert forall|i: int, j: int|
                    0 <= i < after.len() && 0 <= j < after.len() && i != j implies after[i]
                    != after[j] by {
                    let oi = if i < k {
                        i
                    } else {
                        i + 1
                    };
                    let oj = if j < k {
                        j
                    } else {
                        j + 1
                    };
                    assert(after[i] == lock_authorities[oi]);
                    assert(after[j] == lock_authorities[oj]);
                }
            }
        },
        None => {},
    }
}

/// Each lock authority that is added to a DabraConfig account makes its max
/// size 32 bytes larger, and each one removed 32 bytes smaller; an account
/// of the old max size is then too small and is extended before it is written.
pub proof fn law_lock_authority_changes_config_size(
    r: DabraConfigAccount,
    c: DabraConfigAccount,
    dabra_data: DabraV2,
    mint: Pubkey,
    action: SetConfigItemActionType,
    authority: Pubkey,
)
    requires
        c.token_config_for(dabra_data, mint) is Some,
        lock_authorities_after(
            c.token_config_for(dabra_data, mint)->0.lock_authorities@,
            action,
            authority,
        ) is Some,
        config_with_lock_authorities(
            r,
            c,
            dabra_data,
            mint,
            lock_authorities_after(
                c.token_config_for(dabra_data, mint)->0.lock_authorities@,
                action,
                authority,
            )->0,
        ),
    ensures
        action == SetConfigItemActionType::Add ==> config_account_max_size(r)
            == config_account_max_size(c) + 32,
        action == SetConfigItemActionType::Remove ==> config_account_max_size(r)
            == config_account_max_size(c) - 32,
{
    let s = c.token_config_for(dabra_data, mint)->0.lock_authorities@;
    lemma_first_position_holds(s, authority);
}

/// A Dabra's council mint can only be kept or removed by a change of its
/// config: it is never replaced by another mint, nor restored once removed.
pub proof fn law_council_mint_kept_or_removed(
    d: DabraV2,
    accounts: Seq<AccountMeta>,
    args: DabraConfigArgs,
)
    ensures
        council_mint_update(d, accounts, args) matches Ok(m) ==> m is None || m
            == d.config.council_mint,
        d.config.council_mint is None ==> (council_mint_update(d, accounts, args) matches Ok(m)
            ==> m is None),
{
}

/// A change of the Dabra's config changes its config alone: its name,
/// community mint, authority and account type stay.
pub proof fn law_config_change_keeps_identity(
    d: DabraV2,
    args: DabraConfigArgs,
    council_mint: Option<Pubkey>,
)
    ensures
        updated_dabra(d, args, council_mint).name == d.name,
        updated_dabra(d, args, council_mint).community_mint == d.community_mint,
        updated_dabra(d, args, council_mint).authority == d.authority,
        updated_dabra(d, args, council_mint).account_type == d.account_type,
{
}

/// A Dabra read in the layout of version 1 is written back in that layout
/// as it was read, but for the count of voting proposals, which is zero;
/// and its extra reserved space is zero, so it can be written back at all.
pub proof fn law_v1_dabra_round_trip(v1: DabraV1)
    ensures
        dabra_v1_from_v2(dabra_v2_from_v1(v1)) == (DabraV1 { voting_proposal_count: 0, ..v1 }),
        is_zeroed_128(dabra_v2_from_v1(v1).reserved_v2),
{
    broadcast use vstd::array::group_array_axioms;

    assert forall|i: int| 0 <= i < 128 implies #[trigger] v2_zero_reserved()@[i] == 0u8 by {}
}

/// Setting a lock leaves no expired lock, and the record holds the new lock.
pub proof fn law_set_lock_leaves_no_expired_lock(
    locks: Seq<TokenOwnerRecordLock>,
    lock: TokenOwnerRecordLock,
    now: i64,
)
    requires
        !lock.spec_is_expired(now),
    ensures
        forall|i: int|
            0 <= i < upserted_locks(unexpired_locks(locks, now), lock).len() ==> !(
            #[trigger] upserted_locks(unexpired_locks(locks, now), lock)[i]).spec_is_expired(now),
        upserted_locks(unexpired_locks(locks, now), lock).contains(lock),
{
    let u = unexpired_locks(locks, now);
    assert forall|i: int| 0 <= i < u.len() implies !(#[trigger] u[i]).spec_is_expired(now) by {
        locks.lemma_filter_pred(unexpired_at(now), i);
    }
    lemma_find_first_lock_in_range(u, lock.lock_id, lock.authority);
    let r = upserted_locks(u, lock);
    match find_first_lock(u, lock.lock_id, lock.authority) {
        Some(k) => {
            assert(r[k] == lock);
        },
        None => {
            assert(r[r.len() - 1] == lock);
        },
    }
}

/// Setting a lock never gives two locks the same id and authority.
pub proof fn law_upsert_keeps_locks_unique(locks: Seq<TokenOwnerRecordLock>, lock: TokenOwnerRecordLock)
    requires
        locks_unique(locks),
    ensures
        locks_unique(upserted_locks(locks, lock)),
{
    lemma_find_first_lock_in_range(locks, lock.lock_id, lock.authority);
    let r = upserted_locks(locks, lock);
    match find_first_lock(locks, lock.lock_id, lock.authority) {
        Some(k) => {
            assert forall|i: int, j: int|
                0 <= i < r.len() && 0 <= j < r.len() && i != j && #[trigger] lock_matches(
                    r[i],
                    r[j].lock_id,
                    r[j].authority,
                ) implies false by {
                if i == k {
                    assert(lock_matches(locks[j], lock.lock_id, lock.authority));
                    assert(lock_matches(locks[k], locks[j].lock_id, locks[j].authority));
                } else if j == k {
                    assert(lock_matches(locks[i], locks[k].lock_id, locks[k].authority));
                } else {
                    assert(lock_matches(locks[i], locks[j].lock_id, locks[j].authority));
                }
            }
        },
        None => {
            assert forall|i: int, j: int|
                0 <= i < r.len() && 0 <= j < r.len() && i != j && #[trigger] lock_matches(
                    r[i],
                    r[j].lock_id,
                    r[j].authority,
                ) implies false by {
                if i == r.len() - 1 {
                    assert(lock_matches(locks[j], lock.lock_id, lock.authority));
                } else if j == r.len() - 1 {
                    assert(lock_matches(locks[i], lock.lock_id, lock.authority));
                } else {
                    assert(lock_matches(locks[i], locks[j].lock_id, locks[j].authority));
                }
            }
        },
    }
}

/// Once the Dabra's authority is removed, no key is its authority: setting
/// the authority again, changing the config and changing a config item are
/// all refused with `DabraHasNoAuthority`.
pub proof fn law_removed_authority_is_final(
    accounts: Seq<AccountMeta>,
    dabra_data: Result<DabraV2, ProgramError>,
    governance_check: Result<(), ProgramError>,
    d: DabraV2,
    later_accounts: Seq<AccountMeta>,
    action: SetDabraAuthorityAction,
    later_governance_check: Result<(), ProgramError>,
    args: DabraConfigArgs,
    item_args: SetDabraConfigItemArgs,
    dabra_config_data: Result<DabraConfigAccount, ProgramError>,
    config_result: Result<DabraConfigUpdate, ProgramError>,
    item_result: Result<DabraConfigAccount, ProgramError>,
)
    requires
        set_dabra_authority_result(
            accounts,
            SetDabraAuthorityAction::Remove,
            dabra_data,
            governance_check,
        ) == Ok::<DabraV2, ProgramError>(d),
    ensures
        d.authority is None,
        forall|k: Pubkey|
            #[trigger] dabra_for_authority(d, k) == Err::<DabraV2, ProgramError>(
                gov_err(GovernanceError::DabraHasNoAuthority),
            ),
        later_accounts.len() >= 2 ==> set_dabra_authority_result(
            later_accounts,
            action,
            Ok(d),
            later_governance_check,
        ) == Err::<DabraV2, ProgramError>(gov_err(GovernanceError::DabraHasNoAuthority)),
        later_accounts.len() >= 2 && set_dabra_config_result(
            later_accounts,
            args,
            Ok(d),
            dabra_config_data,
            config_result,
        ) ==> config_result == Err::<DabraConfigUpdate, ProgramError>(
            gov_err(GovernanceError::DabraHasNoAuthority),
        ),
        later_accounts.len() >= 5 && set_dabra_config_item_result(
            later_accounts,
            item_args,
            Ok(d),
            dabra_config_data,
            item_result,
        ) ==> item_result == Err::<DabraConfigAccount, ProgramError>(
            gov_err(GovernanceError::DabraHasNoAuthority),
        ),
{
}

/// Setting the authority hands the Dabra over to the new authority: it is
/// the one key the Dabra then accepts as its authority, and nothing else of
/// the Dabra changes.
pub proof fn law_new_authority_takes_over(
    accounts: Seq<AccountMeta>,
    action: SetDabraAuthorityAction,
    dabra_data: Result<DabraV2, ProgramError>,
    governance_check: Result<(), ProgramError>,
    d: DabraV2,
    k: Pubkey,
)
    requires
        action != SetDabraAuthorityAction::Remove,
        set_dabra_authority_result(accounts, action, dabra_data, governance_check) == Ok::<
            DabraV2,
            ProgramError,
        >(d),
    ensures
        d == (DabraV2 { authority: Some(accounts[2].key), ..dabra_data->Ok_0 }),
        dabra_for_authority(d, accounts[2].key) == Ok::<DabraV2, ProgramError>(d),
        k != accounts[2].key ==> dabra_for_authority(d, k) == Err::<DabraV2, ProgramError>(
            gov_err(GovernanceError::InvalidAuthorityForDabra),
        ),
{
}

/// Relinquishing a lock that was just set removes it: in a record whose
/// locks are unique, the lock set is found, and once it is removed no lock
/// with its id and authority is left.
pub proof fn law_relinquish_removes_set_lock(
    locks: Seq<TokenOwnerRecordLock>,
    lock: TokenOwnerRecordLock,
)
    requires
        locks_unique(locks),
    ensures
        find_first_lock(upserted_locks(locks, lock), lock.lock_id, lock.authority) matches Some(
            i,
        ) && forall|j: int|
            0 <= j < upserted_locks(locks, lock).remove(i).len() ==> !lock_matches(
                #[trigger] upserted_locks(locks, lock).remove(i)[j],
                lock.lock_id,
                lock.authority,
            ),
{
    law_upsert_keeps_locks_unique(locks, lock);
    let u = upserted_locks(locks, lock);
    lemma_find_first_lock_in_range(locks, lock.lock_id, lock.authority);
    match find_first_lock(locks, lock.lock_id, lock.authority) {
        Some(k) => assert(u[k] == lock),
        None => assert(u[u.len() - 1] == lock),
    }
    lemma_find_first_lock_in_range(u, lock.lock_id, lock.authority);
    let i = find_first_lock(u, lock.lock_id, lock.authority)->0;
    assert forall|j: int| 0 <= j < u.remove(i).len() implies !lock_matches(
        #[trigger] u.remove(i)[j],
        lock.lock_id,
        lock.authority,
    ) by {
        let oj = if j < i {
            j
        } else {
            j + 1
        };
        assert(u.remove(i)[j] == u[oj]);
        if lock_matches(u[oj], lock.lock_id, lock.authority) {
            assert(lock_matches(u[oj], u[i].lock_id, u[i].authority));
        }
    }
}

/// A Dabra as created is initialized, governed by the authority it was
/// created with, and takes deposits of its community mint and, where it has
/// one, of its council mint.
pub proof fn law_created_dabra_is_governed_by_its_authority(
    accounts: Seq<AccountMeta>,
    name: String,
    args: DabraConfigArgs,
    council_mint: Option<Pubkey>,
)
    ensures
        created_dabra(accounts, name, args, council_mint).account_type
            == GovernanceAccountType::DabraV2,
        dabra_for_authority(created_dabra(accounts, name, args, council_mint), accounts[1].key)
            == Ok::<DabraV2, ProgramError>(created_dabra(accounts, name, args, council_mint)),
        created_dabra(accounts, name, args, council_mint).is_governing_token_mint(accounts[2].key),
        council_mint matches Some(c) ==> created_dabra(
            accounts,
            name,
            args,
            council_mint,
        ).is_governing_token_mint(c),
{
}

/// A withdrawal that the token owner did not sign is refused with
/// `GoverningTokenOwnerMustSign` before anything else is looked at, whether
/// or not the holding address can be derived: no transfer is made and the
/// token owner record is not changed.
pub proof fn law_withdraw_needs_owner_signature(
    program_id: Pubkey,
    accounts: Seq<AccountMeta>,
    dabra_data: Result<DabraV2, ProgramError>,
    governing_token_mint: Result<Pubkey, ProgramError>,
    dabra_config_data: Result<DabraConfigAccount, ProgramError>,
    token_owner_record_deposit: Result<u64, ProgramError>,
    token_owner_record_check: Result<(), ProgramError>,
    r: Result<GoverningTokenWithdrawal, ProgramError>,
)
    requires
        accounts.len() >= 7,
        !accounts[3].is_signer,
    ensures
        withdraw_holding_address_exists(program_id, accounts, dabra_data, governing_token_mint),
        withdraw_result(
            program_id,
            accounts,
            dabra_data,
            governing_token_mint,
            dabra_config_data,
            token_owner_record_deposit,
            token_owner_record_check,
            r,
        ) ==> r is Err && r->Err_0 == gov_err(GovernanceError::GoverningTokenOwnerMustSign),
{
}

/// The first matching lock lies within the locks and matches; where none
/// is found, no lock matches.
proof fn lemma_find_first_lock_in_range(locks: Seq<TokenOwnerRecordLock>, lock_id: u8, authority: Pubkey)
    ensures
        find_first_lock(locks, lock_id, authority) matches Some(k) ==> 0 <= k < locks.len()
            && lock_matches(locks[k], lock_id, authority),
        find_first_lock(locks, lock_id, authority) is None ==> forall|j: int|
            0 <= j < locks.len() ==> !lock_matches(locks[j], lock_id, authority),
    decreases locks.len(),
{
    if locks.len() > 0 {
        let d = locks.drop_last();
        lemma_find_first_lock_in_range(d, lock_id, authority);
        assert forall|j: int| 0 <= j < d.len() implies d[j] == locks[j] by {}
    }
}


/// Creating a Dabra gives each governing token the type its own args ask
/// for: the planned DabraConfig has the community token type of the
/// community args and the council token type of the council args, each
/// whatever the other is, and neither has lock authorities yet.
pub proof fn law_created_token_types_follow_their_args(
    accounts: Seq<AccountMeta>,
    name: String,
    args: DabraConfigArgs,
    dabra_data_is_empty: bool,
    rent: Result<(), ProgramError>,
    p: CreateDabraPlan,
)
    requires
        create_dabra_plan(accounts, name, args, dabra_data_is_empty, rent, p),
        p.result is Ok,
    ensures
        exists|i: int|
            0 <= i < p.actions@.len() && #[trigger] p.actions@[i] is CreateDabraConfig,
        forall|i: int|
            0 <= i < p.actions@.len() ==> (#[trigger] p.actions@[i] matches CreateDabraAction::CreateDabraConfig {
                data,
                ..
            } ==> data.community_token_config.token_type
                == args.community_token_config_args.token_type
                && data.council_token_config.token_type == args.council_token_config_args.token_type
                && data.community_token_config.lock_authorities@.len() == 0
                && data.council_token_config.lock_authorities@.len() == 0),
        forall|i: int|
            0 <= i < p.actions@.len() ==> (#[trigger] p.actions@[i] matches CreateDabraAction::CreateDabra {
                data,
                ..
            } ==> data.community_mint == accounts[2].key && data.authority == Some(accounts[1].key)
                && data.name == name && data.config.council_mint == (if args.use_council_mint {
                Some(accounts[8].key)
            } else {
                None
            }) && data.config.min_community_weight_to_create_governance
                == args.min_community_weight_to_create_governance),
        dabra_data_is_empty,
        rent is Ok,
{
    let holdings: int = if args.use_council_mint { 2 } else { 1 };
    assert(p.actions@[holdings] is CreateDabraConfig);
}

/// Relinquishing ends with no expired lock in the record, whether or not
/// lock ids are given; with none given, the record keeps exactly its locks
/// that are not expired, each of them once for each time it was there.
pub proof fn law_relinquish_drops_expired_locks(
    accounts: Seq<AccountMeta>,
    lock_ids: Option<Seq<u8>>,
    dabra_data: Result<DabraV2, ProgramError>,
    dabra_config_data: Result<DabraConfigAccount, ProgramError>,
    t: TokenOwnerRecordLocks,
    now: i64,
    r: Result<TokenOwnerRecordLocks, ProgramError>,
)
    requires
        relinquish_result(accounts, lock_ids, dabra_data, dabra_config_data, Ok(t), Ok(now), r),
        r is Ok,
    ensures
        r->Ok_0.governing_token_mint == t.governing_token_mint,
        forall|i: int|
            0 <= i < r->Ok_0.locks@.len() ==> !(#[trigger] r->Ok_0.locks@[i]).spec_is_expired(now),
        lock_ids is None ==> forall|i: int|
            0 <= i < r->Ok_0.locks@.len() ==> t.locks@.contains(#[trigger] r->Ok_0.locks@[i]),
        lock_ids is None ==> forall|j: int|
            0 <= j < t.locks@.len() && !(#[trigger] t.locks@[j]).spec_is_expired(now)
                ==> r->Ok_0.locks@.contains(t.locks@[j]),
{
    let rl = r->Ok_0.locks@;
    let pred = unexpired_at(now);
    let locks = crate::processor::process_relinquish_token_owner_record_locks::relinquished_locks(
        accounts,
        lock_ids,
        dabra_data->Ok_0,
        dabra_config_data->Ok_0,
        t,
    )->Ok_0;
    assert(rl == locks.filter(pred));
    assert forall|i: int| 0 <= i < rl.len() implies !(#[trigger] rl[i]).spec_is_expired(now) by {
        locks.lemma_filter_pred(pred, i);
    }
    if lock_ids is None {
        assert(locks == t.locks@);
        assert forall|i: int| 0 <= i < rl.len() implies t.locks@.contains(#[trigger] rl[i]) by {
            assert(rl.contains(rl[i]));
            locks.lemma_filter_contains_rev(pred, rl[i]);
        }
        assert forall|j: int|
            0 <= j < t.locks@.len() && !(#[trigger] t.locks@[j]).spec_is_expired(now) implies rl.contains(
            t.locks@[j],
        ) by {
            locks.lemma_filter_contains(pred, j);
        }
    }
}

/// A signed lock that is not expired is set exactly when its authority is a
/// lock authority of the record's own governing token: of the community
/// token for a record of the community mint, else of the council token for
/// a record of the council mint. The record then holds the lock.
pub proof fn law_lock_authority_of_the_record_mint(
    accounts: Seq<AccountMeta>,
    lock_id: u8,
    expiry: Option<i64>,
    now: i64,
    d: DabraV2,
    c: DabraConfigAccount,
    t: TokenOwnerRecordLocks,
    r: Result<TokenOwnerRecordLocks, ProgramError>,
)
    requires
        accounts.len() >= 6,
        accounts[3].is_signer,
        !(TokenOwnerRecordLock { lock_id, authority: accounts[3].key, expiry }).spec_is_expired(now),
        set_token_owner_record_lock_result(accounts, lock_id, expiry, now, Ok(d), Ok(c), Ok(t), r),
    ensures
        t.governing_token_mint == d.community_mint ==> (r is Ok
            <==> c.community_token_config.lock_authorities@.contains(accounts[3].key)),
        t.governing_token_mint != d.community_mint && d.config.council_mint == Some(
            t.governing_token_mint,
        ) ==> (r is Ok <==> c.council_token_config.lock_authorities@.contains(accounts[3].key)),
        !d.is_governing_token_mint(t.governing_token_mint) ==> r == Err::<
            TokenOwnerRecordLocks,
            ProgramError,
        >(gov_err(GovernanceError::InvalidGoverningTokenMint)),
        r is Ok ==> r->Ok_0.governing_token_mint == t.governing_token_mint && r->Ok_0.locks@.contains(
            TokenOwnerRecordLock { lock_id, authority: accounts[3].key, expiry },
        ),
        r is Ok ==> forall|i: int|
            0 <= i < r->Ok_0.locks@.len() ==> !(#[trigger] r->Ok_0.locks@[i]).spec_is_expired(now),
{
    let lock = TokenOwnerRecordLock { lock_id, authority: accounts[3].key, expiry };
    if r is Ok {
        law_set_lock_leaves_no_expired_lock(t.locks@, lock, now);
    }
}

/// A withdrawal that the owner signed, of a mint of the Dabra from its
/// holding account, is refused only for membership tokens: liquid and
/// dormant tokens are withdrawn whole, once the deposit is read and the
/// record's own checks pass, and the deposit is then zero.
pub proof fn law_withdraw_refuses_only_membership_tokens(
    program_id: Pubkey,
    accounts: Seq<AccountMeta>,
    d: DabraV2,
    m: Pubkey,
    c: DabraConfigAccount,
    amount: u64,
    r: Result<GoverningTokenWithdrawal, ProgramError>,
)
    requires
        accounts.len() >= 7,
        accounts[3].is_signer,
        d.is_governing_token_mint(m),
        program_address(governing_token_holding_address_seeds(accounts[0].key, m), program_id@)
            == accounts[1].key@,
        withdraw_result(program_id, accounts, Ok(d), Ok(m), Ok(c), Ok(amount), Ok(()), r),
    ensures
        (if m == d.community_mint {
            c.community_token_config.token_type
        } else {
            c.council_token_config.token_type
        }) == GoverningTokenType::Membership ==> r is Err && r->Err_0 == gov_err(
            GovernanceError::CannotWithdrawMembershipTokens,
        ),
        (if m == d.community_mint {
            c.community_token_config.token_type
        } else {
            c.council_token_config.token_type
        }) != GoverningTokenType::Membership ==> r is Ok && r->Ok_0.amount == amount
            && r->Ok_0.deposit_after == 0,
        r is Ok ==> r->Ok_0.dabra_address_seeds.deep_view() == seq![
            crate::state::dabra::program_authority_seed(),
            vstd::utf8::encode_utf8(d.name@),
        ],
{
}

/// A governance is created only with a config that passes its check: where
/// the check fails, creating the governance fails with its error, whoever
/// the create authority is. A governance that is created belongs to the
/// Dabra of account 0 and the seed of account 2, and was asked for by the
/// Dabra's authority, which signed, or by another authority whose token
/// owner record passed its checks.
pub proof fn law_governance_needs_valid_config(
    accounts: Seq<AccountMeta>,
    rent: Result<(), ProgramError>,
    create_governance_args_check: Result<(), ProgramError>,
    dabra_data: Result<DabraV2, ProgramError>,
    token_owner_record_check: Result<(), ProgramError>,
)
    ensures
        accounts.len() >= 7 && rent is Ok && create_governance_args_check is Err
            ==> create_governance_result(
            accounts,
            rent,
            create_governance_args_check,
            dabra_data,
            token_owner_record_check,
        ) == Err::<crate::processor::process_create_governance::NewGovernance, ProgramError>(
            create_governance_args_check->Err_0,
        ),
        create_governance_result(
            accounts,
            rent,
            create_governance_args_check,
            dabra_data,
            token_owner_record_check,
        ) matches Ok(g) ==> {
            &&& accounts.len() >= 7
            &&& rent is Ok
            &&& create_governance_args_check is Ok
            &&& dabra_data is Ok
            &&& g.dabra == accounts[0].key
            &&& g.governance_seed == accounts[2].key
            &&& if dabra_data->Ok_0.authority == Some(accounts[6].key) {
                accounts[6].is_signer
            } else {
                token_owner_record_check is Ok
            }
        },
{
}

/// Where lock ids are given, a lock authority that is configured for the
/// record's own governing token must have signed: without its signature the
/// relinquish is refused, whatever the lock ids.
pub proof fn law_configured_lock_authority_must_sign(
    accounts: Seq<AccountMeta>,
    ids: Seq<u8>,
    d: DabraV2,
    c: DabraConfigAccount,
    t: TokenOwnerRecordLocks,
    now: Result<i64, ProgramError>,
    r: Result<TokenOwnerRecordLocks, ProgramError>,
)
    requires
        accounts.len() >= 4,
        !accounts[3].is_signer,
        d.is_governing_token_mint(t.governing_token_mint),
        (if t.governing_token_mint == d.community_mint {
            c.community_token_config
        } else {
            c.council_token_config
        }).lock_authorities@.contains(accounts[3].key),
        relinquish_result(accounts, Some(ids), Ok(d), Ok(c), Ok(t), now, r),
    ensures
        r == Err::<TokenOwnerRecordLocks, ProgramError>(
            gov_err(GovernanceError::TokenOwnerRecordLockAuthorityMustSign),
        ),
{
}

} // verus!
