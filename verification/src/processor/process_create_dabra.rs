//! CreateDabra instruction.
use vstd::prelude::*;
use vstd::utf8::encode_utf8;
use crate::account::{next_account_info, AccountInfoIter, AccountMeta};
use crate::error::{gov_err, GovernanceError, ProgramError};
use crate::pubkey::Pubkey;
use crate::state::dabra::{
    assert_valid_dabra_config_args, dabra_address_seeds, get_dabra_address_seeds,
    get_governing_token_holding_address_seeds, governing_token_holding_address_seeds,
    valid_dabra_config_args, v2_zero_reserved, DabraConfig, DabraConfigArgs, DabraV2,
};
use crate::state::dabra_config::{
    addin_account_count, dabra_config_address_seeds, get_dabra_config_address_seeds,
    resolve_governing_token_config, resolved_token_config, DabraConfigAccount, Reserved110,
};
use crate::state::enums::GovernanceAccountType;

verus! {

/// An account that creating a Dabra creates.
pub enum CreateDabraAction {
    /// The token account at `holding_index` for the mint at `mint_index`,
    /// owned by the Dabra, at the address derived from the seeds
    CreateTokenHolding { holding_index: usize, mint_index: usize, seeds: Vec<Vec<u8>> },
    /// The DabraConfig account at `account_index`, at the address derived from the seeds
    CreateDabraConfig { account_index: usize, data: DabraConfigAccount, seeds: Vec<Vec<u8>> },
    /// The Dabra account, account 0, at the address derived from the seeds
    CreateDabra { data: DabraV2, seeds: Vec<Vec<u8>> },
}

/// The accounts to create, in order, and what the instruction returns once
/// they are all created.
pub struct CreateDabraPlan {
    pub actions: Vec<CreateDabraAction>,
    pub result: Result<(), ProgramError>,
}

/// The holding account of the mint at `mint_index` is created at `holding_index`.
pub open spec fn creates_holding(
    a: CreateDabraAction,
    accounts: Seq<AccountMeta>,
    holding_index: int,
    mint_index: int,
) -> bool {
    a matches CreateDabraAction::CreateTokenHolding { holding_index: h, mint_index: m, seeds }
        && h == holding_index && m == mint_index && seeds.deep_view()
        == governing_token_holding_address_seeds(accounts[0].key, accounts[mint_index].key)
}

/// The DabraConfig of a new Dabra: its token configurations resolved from
/// the args and the accounts from `pos`, with no lock authorities.
pub open spec fn created_dabra_config(
    c: DabraConfigAccount,
    accounts: Seq<AccountMeta>,
    pos: int,
    args: DabraConfigArgs,
) -> bool {
    &&& c.account_type == GovernanceAccountType::DabraConfig
    &&& c.dabra == accounts[0].key
    &&& resolved_token_config(
        c.community_token_config,
        accounts,
        pos,
        args.community_token_config_args,
        None,
    )
    &&& resolved_token_config(
        c.council_token_config,
        accounts,
        pos + addin_account_count(args.community_token_config_args),
        args.council_token_config_args,
        None,
    )
    &&& forall|i: int| 0 <= i < 110 ==> #[trigger] c.reserved.reserved@[i] == 0u8
}

/// The new Dabra: its community mint is account 2, its authority account 1,
/// its council mint the given one, and its config from the args.
pub open spec fn created_dabra(
    accounts: Seq<AccountMeta>,
    name: String,
    args: DabraConfigArgs,
    council_mint: Option<Pubkey>,
) -> DabraV2 {
    DabraV2 {
        account_type: GovernanceAccountType::DabraV2,
        community_mint: accounts[2].key,
        name,
        reserved: vstd::array::spec_array_fill_for_copy_type::<u8, 6>(0u8),
        authority: Some(accounts[1].key),
        config: DabraConfig {
            council_mint,
            reserved: vstd::array::spec_array_fill_for_copy_type::<u8, 6>(0u8),
            community_mint_max_voter_weight_source: args.community_mint_max_voter_weight_source,
            min_community_weight_to_create_governance: args.min_community_weight_to_create_governance,
            legacy1: 0,
            legacy2: 0,
        },
        legacy1: 0,
        reserved_v2: v2_zero_reserved(),
    }
}

/// The position of the DabraConfig account.
pub open spec fn create_config_index(args: DabraConfigArgs) -> int {
    if args.use_council_mint {
        10
    } else {
        8
    }
}

/// What `process_create_dabra` plans.
pub open spec fn create_dabra_plan(
    accounts: Seq<AccountMeta>,
    name: String,
    args: DabraConfigArgs,
    dabra_data_is_empty: bool,
    rent: Result<(), ProgramError>,
    p: CreateDabraPlan,
) -> bool {
    let holdings = if args.use_council_mint {
        2int
    } else {
        1int
    };
    let config_index = create_config_index(args);
    let needed = config_index + 1 + addin_account_count(args.community_token_config_args)
        + addin_account_count(args.council_token_config_args);
    if accounts.len() < 8 {
        p.actions@.len() == 0 && p.result == Err::<(), ProgramError>(
            ProgramError::NotEnoughAccountKeys,
        )
    } else if rent is Err {
        p.actions@.len() == 0 && p.result == rent
    } else if !dabra_data_is_empty {
        p.actions@.len() == 0 && p.result == Err::<(), ProgramError>(
            gov_err(GovernanceError::DabraAlreadyExists),
        )
    } else if valid_dabra_config_args(args) is Err {
        p.actions@.len() == 0 && p.result == valid_dabra_config_args(args)
    } else {
        &&& p.actions@.len() >= 1
        &&& creates_holding(p.actions@[0], accounts, 3, 2)
        &&& if args.use_council_mint && accounts.len() < 10 {
            p.actions@.len() == 1 && p.result == Err::<(), ProgramError>(
                ProgramError::NotEnoughAccountKeys,
            )
        } else {
            &&& args.use_council_mint ==> p.actions@.len() >= 2 && creates_holding(
                p.actions@[1],
                accounts,
                9,
                8,
            )
            &&& if accounts.len() < needed {
                p.actions@.len() == holdings && p.result == Err::<(), ProgramError>(
                    ProgramError::NotEnoughAccountKeys,
                )
            } else {
                &&& p.result == Ok::<(), ProgramError>(())
                &&& p.actions@.len() == holdings + 2
                &&& p.actions@[holdings] matches CreateDabraAction::CreateDabraConfig {
                    account_index,
                    data,
                    seeds,
                } && account_index == config_index && created_dabra_config(
                    data,
                    accounts,
                    config_index + 1,
                    args,
                ) && seeds.deep_view() == dabra_config_address_seeds(accounts[0].key)
                &&& p.actions@[holdings + 1] matches CreateDabraAction::CreateDabra { data, seeds }
                    && data == created_dabra(
                    accounts,
                    name,
                    args,
                    if args.use_council_mint {
                        Some(accounts[8].key)
                    } else {
                        None
                    },
                ) && seeds.deep_view() == dabra_address_seeds(encode_utf8(name@))
            }
        }
    }
}

/// Processes CreateDabra instruction.
///
/// The accounts are: 0 the Dabra, 1 its authority, 2 the community mint,
/// 3 its holding account, 4 the payer, 5 the system program, 6 the token
/// program, 7 the rent sysvar, then where the council mint is used 8 the
/// council mint and 9 its holding account, then the DabraConfig account and
/// the plugins of the community and of the council token that the args ask
/// for. `dabra_data_is_empty` says whether account 0 has no data yet, and
/// `rent` the outcome of reading the rent sysvar. The plan lists the
/// accounts to create in order; where one cannot be created the instruction
/// fails with that error, else it returns the plan's result.
pub fn process_create_dabra(
    accounts: Vec<AccountMeta>,
    name: String,
    dabra_config_args: DabraConfigArgs,
    dabra_data_is_empty: bool,
    rent: Result<(), ProgramError>,
) -> (p: CreateDabraPlan)
    ensures
        create_dabra_plan(accounts@, name, dabra_config_args, dabra_data_is_empty, rent, p),
{
    let mut actions: Vec<CreateDabraAction> = Vec::new();
    let mut account_info_iter = AccountInfoIter::new(accounts);
    let mut i: usize = 0;
    let mut infos: Vec<AccountMeta> = Vec::new();
    while i < 8
        invariant
            0 <= i <= 8,
            account_info_iter.accounts@ == accounts@,
            account_info_iter.pos == i,
            i <= accounts@.len(),
            infos@ == accounts@.subrange(0, i as int),
            actions@.len() == 0,
        decreases 8 - i,
    {
        match next_account_info(&mut account_info_iter) {
            Ok(a) => infos.push(a),
            Err(e) => return CreateDabraPlan { actions, result: Err(e) },
        }
        i = i + 1;
    }
    let dabra_info = infos[0];
    let dabra_authority_info = infos[1];
    let governance_token_mint_info = infos[2];
    match rent {
        Ok(()) => {},
        Err(e) => return CreateDabraPlan { actions, result: Err(e) },
    }
    if !dabra_data_is_empty {
        return CreateDabraPlan {
            actions,
            result: Err(ProgramError::Governance(GovernanceError::DabraAlreadyExists)),
        };
    }
    match assert_valid_dabra_config_args(&dabra_config_args) {
        Ok(()) => {},
        Err(e) => return CreateDabraPlan { actions, result: Err(e) },
    }
    actions.push(
        CreateDabraAction::CreateTokenHolding {
            holding_index: 3,
            mint_index: 2,
            seeds: get_governing_token_holding_address_seeds(
                &dabra_info.key,
                &governance_token_mint_info.key,
            ),
        },
    );
    let council_token_mint_address = if dabra_config_args.use_council_mint {
        let council_token_mint_info = match next_account_info(&mut account_info_iter) {
            Ok(a) => a,
            Err(e) => return CreateDabraPlan { actions, result: Err(e) },
        };
        match next_account_info(&mut account_info_iter) {
            Ok(_) => {},
            Err(e) => return CreateDabraPlan { actions, result: Err(e) },
        }
        actions.push(
            CreateDabraAction::CreateTokenHolding {
                holding_index: 9,
                mint_index: 8,
                seeds: get_governing_token_holding_address_seeds(
                    &dabra_info.key,
                    &council_token_mint_info.key,
                ),
            },
        );
        Some(council_token_mint_info.key)
    } else {
        None
    };
    let dabra_config_index = account_info_iter.pos;
    match next_account_info(&mut account_info_iter) {
        Ok(_) => {},
        Err(e) => return CreateDabraPlan { actions, result: Err(e) },
    }
    let community_token_config = match resolve_governing_token_config(
        &mut account_info_iter,
        &dabra_config_args.community_token_config_args,
        None,
    ) {
        Ok(c) => c,
        Err(e) => return CreateDabraPlan { actions, result: Err(e) },
    };
    let council_token_config = match resolve_governing_token_config(
        &mut account_info_iter,
        &dabra_config_args.council_token_config_args,
        None,
    ) {
        Ok(c) => c,
        Err(e) => return CreateDabraPlan { actions, result: Err(e) },
    };
    let dabra_config_data = DabraConfigAccount {
        account_type: GovernanceAccountType::DabraConfig,
        dabra: dabra_info.key,
        community_token_config,
        council_token_config,
        reserved: Reserved110::default(),
    };
    actions.push(
        CreateDabraAction::CreateDabraConfig {
            account_index: dabra_config_index,
            data: dabra_config_data,
            seeds: get_dabra_config_address_seeds(&dabra_info.key),
        },
    );
    let seeds = get_dabra_address_seeds(name.as_str());
    let dabra_data = DabraV2 {
        account_type: GovernanceAccountType::DabraV2,
        community_mint: governance_token_mint_info.key,
        name,
        reserved: [0u8; 6],
        authority: Some(dabra_authority_info.key),
        config: DabraConfig {
            council_mint: council_token_mint_address,
            reserved: [0u8; 6],
            community_mint_max_voter_weight_source: dabra_config_args.community_mint_max_voter_weight_source,
            min_community_weight_to_create_governance: dabra_config_args.min_community_weight_to_create_governance,
            legacy1: 0,
            legacy2: 0,
        },
        legacy1: 0,
        reserved_v2: [0u8; 128],
    };
    proof {
        broadcast use vstd::array::group_array_axioms;
    }
    actions.push(CreateDabraAction::CreateDabra { data: dabra_data, seeds });
    CreateDabraPlan { actions, result: Ok(()) }
}

} // verus!
