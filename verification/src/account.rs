//! The accounts that an instruction is given, in order.
use vstd::prelude::*;
use crate::error::ProgramError;
use crate::pubkey::Pubkey;
use solana_program::account_info::AccountInfo;
use solana_program::pubkey::Pubkey as SolanaPubkey;
use spl_governance_tools::account::get_account_type;
use spl_governance_tools::error::GovernanceToolsError as ToolsError;

verus! {

/// What the program reads of an account that an instruction names: its
/// address and whether it signed the transaction.
#[derive(Clone, Copy, Debug)]
pub struct AccountMeta {
    pub key: Pubkey,
    pub is_signer: bool,
}

/// The accounts of an instruction and how many of them have been taken.
pub struct AccountInfoIter {
    pub accounts: Vec<AccountMeta>,
    pub pos: usize,
}

impl AccountInfoIter {
    /// An iterator over all the accounts, none taken yet.
    pub fn new(accounts: Vec<AccountMeta>) -> (r: AccountInfoIter)
        ensures
            r.accounts@ == accounts@,
            r.pos == 0,
            r.wf(),
    {
        AccountInfoIter { accounts, pos: 0 }
    }

    /// The number of accounts taken is at most the number of accounts.
    pub open spec fn wf(&self) -> bool {
        self.pos <= self.accounts@.len()
    }

    /// Whether another account can be taken.
    pub open spec fn has_next(&self) -> bool {
        self.pos < self.accounts@.len()
    }

    /// The account that is taken next.
    pub open spec fn peek(&self) -> AccountMeta {
        self.accounts@[self.pos as int]
    }

    /// The iterator after one account has been taken.
    pub open spec fn advanced(&self) -> AccountInfoIter {
        AccountInfoIter { accounts: self.accounts, pos: (self.pos + 1) as usize }
    }
}

/// Takes the next account, or fails with `NotEnoughAccountKeys` where all
/// accounts have been taken.
pub fn next_account_info(iter: &mut AccountInfoIter) -> (r: Result<AccountMeta, ProgramError>)
    ensures
        final(iter).accounts == old(iter).accounts,
        old(iter).wf() ==> final(iter).wf(),
        old(iter).has_next() ==> r == Ok::<AccountMeta, ProgramError>(old(iter).peek())
            && final(iter).pos == old(iter).pos + 1,
        !old(iter).has_next() ==> r == Err::<AccountMeta, ProgramError>(
            ProgramError::NotEnoughAccountKeys,
        ) && final(iter).pos == old(iter).pos,
{
    if iter.pos < iter.accounts.len() {
        let a = iter.accounts[iter.pos];
        iter.pos = iter.pos + 1;
        Ok(a)
    } else {
        Err(ProgramError::NotEnoughAccountKeys)
    }
}


/// Calls `spl_governance_tools::account::get_account_type`, reading the
/// account type as the first byte of the data of an account with the given
/// key, owner and data. The contract claims what the crate's source shows:
/// an account with no data does not exist, one not owned by the program has
/// an invalid owner, and any other gives its first byte.
#[verifier::external_body]
fn tools_get_account_type_byte(
    program_id: &Pubkey,
    key: &Pubkey,
    owner: &Pubkey,
    data: &Vec<u8>,
) -> (r: Result<u8, ProgramError>)
    ensures
        r == if data@.len() == 0 {
            Err::<u8, ProgramError>(ProgramError::AccountDoesNotExist)
        } else if owner@ != program_id@ {
            Err::<u8, ProgramError>(ProgramError::InvalidAccountOwner)
        } else {
            Ok::<u8, ProgramError>(data@[0])
        },
{
    let (pid, k, o) = (SolanaPubkey::from(program_id.bytes), SolanaPubkey::from(key.bytes), SolanaPubkey::from(owner.bytes));
    let (mut lamports, mut bytes) = (0u64, data.clone());
    let info = AccountInfo::new(&k, false, false, &mut lamports, &mut bytes, &o, false, 0);
    match get_account_type::<u8>(&pid, &info) {
        Ok(b) => Ok(b),
        Err(e) if e == ToolsError::AccountDoesNotExist.into() => Err(ProgramError::AccountDoesNotExist),
        Err(e) if e == ToolsError::InvalidAccountOwner.into() => Err(ProgramError::InvalidAccountOwner),
        Err(_) => Err(ProgramError::BorshIoError),
    }
}

/// The checks that reading an account of the program makes before its data
/// is read: the account has data and the program owns it.
pub open spec fn program_account_check(program_id: Pubkey, owner: Pubkey, data: Seq<u8>) -> Result<
    u8,
    ProgramError,
> {
    if data.len() == 0 {
        Err(ProgramError::AccountDoesNotExist)
    } else if owner != program_id {
        Err(ProgramError::InvalidAccountOwner)
    } else {
        Ok(data[0])
    }
}

/// Checks that the account has data and is owned by the program, and
/// returns its first byte, which holds its account type.
pub fn get_account_type_byte(
    program_id: &Pubkey,
    key: &Pubkey,
    owner: &Pubkey,
    data: &Vec<u8>,
) -> (r: Result<u8, ProgramError>)
    ensures
        r == program_account_check(*program_id, *owner, data@),
{
    proof {
        crate::pubkey::lemma_pubkey_view_injective(*owner, *program_id);
    }
    tools_get_account_type_byte(program_id, key, owner, data)
}

} // verus!
