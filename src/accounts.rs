//! The accounts an instruction receives, and the checks each operation makes on them.
use vstd::prelude::*;

use crate::error::VaultError;

verus! {

/// Owner of plain system accounts: the system program.
pub const SYSTEM_PROGRAM_ID: [u8; 32] = [
    0, 0, 0, 0, 0, 0, 0, 0, 0, 0, 0, 0, 0, 0, 0, 0,
    0, 0, 0, 0, 0, 0, 0, 0, 0, 0, 0, 0, 0, 0, 0, 0,
];

/// What the vault reads of one ledger account.
#[derive(Clone, Copy)]
pub struct AccountState {
    pub key: [u8; 32],
    pub owner: [u8; 32],
    pub lamports: u64,
    pub is_signer: bool,
}

/// Compares two 32-byte addresses.
pub fn same_address(a: &[u8; 32], b: &[u8; 32]) -> (r: bool)
    ensures
        r == (a@ == b@),
{
    let mut i: usize = 0;
    while i < 32
        invariant
            0 <= i <= 32,
            a@.len() == 32,
            b@.len() == 32,
            forall|j: int| 0 <= j < i ==> a@[j] == b@[j],
        decreases 32 - i,
    {
        if a[i] != b[i] {
            return false;
        }
        i += 1;
    }
    assert(a@ =~= b@);
    true
}

/// Accounts of a deposit: the payer, then the vault, then the system program.
#[derive(Clone, Copy)]
pub struct DepositAccounts {
    pub payer: AccountState,
    pub vault: AccountState,
}

/// The outcome of the account checks of a deposit.
pub open spec fn deposit_accounts_check(accounts: Seq<AccountState>) -> Result<(), VaultError> {
    if accounts.len() < 3 {
        Err(VaultError::NotEnoughAccountKeys)
    } else if !accounts[0].is_signer {
        Err(VaultError::MissingSignature)
    } else if accounts[1].owner@ != SYSTEM_PROGRAM_ID@ {
        Err(VaultError::InvalidOwner)
    } else if accounts[1].lamports != 0 {
        Err(VaultError::VaultNotEmpty)
    } else {
        Ok(())
    }
}

impl DepositAccounts {
    /// Checks the accounts of a deposit: enough of them, a signing payer, and a
    /// vault that the system program owns and that holds nothing.
    pub fn try_from(accounts: &[AccountState]) -> (r: Result<DepositAccounts, VaultError>)
        ensures
            deposit_accounts_check(accounts@) matches Err(e) ==> r == Err::<
                DepositAccounts,
                VaultError,
            >(e),
            deposit_accounts_check(accounts@) is Ok ==> (r matches Ok(a) ==> a.payer
                == accounts@[0] && a.vault == accounts@[1]) && r is Ok,
    {
        if accounts.len() < 3 {
            return Err(VaultError::NotEnoughAccountKeys);
        }
        let payer = accounts[0];
        let vault = accounts[1];
        if !payer.is_signer {
            return Err(VaultError::MissingSignature);
        }
        let system: [u8; 32] = SYSTEM_PROGRAM_ID;
        if !same_address(&vault.owner, &system) {
            return Err(VaultError::InvalidOwner);
        }
        if vault.lamports != 0 {
            return Err(VaultError::VaultNotEmpty);
        }
        Ok(DepositAccounts { payer, vault })
    }
}

/// Accounts of a withdrawal: the payer, the vault, the instruction list, and
/// the system program. The payer need not sign.
#[derive(Clone, Copy)]
pub struct WithdrawAccounts {
    pub payer: AccountState,
    pub vault: AccountState,
}

impl WithdrawAccounts {
    /// Checks that the four accounts of a withdrawal are present.
    pub fn try_from(accounts: &[AccountState]) -> (r: Result<WithdrawAccounts, VaultError>)
        ensures
            accounts@.len() < 4 ==> r == Err::<WithdrawAccounts, VaultError>(
                VaultError::NotEnoughAccountKeys,
            ),
            accounts@.len() >= 4 ==> (r matches Ok(a) ==> a.payer == accounts@[0] && a.vault
                == accounts@[1]) && r is Ok,
    {
        if accounts.len() < 4 {
            return Err(VaultError::NotEnoughAccountKeys);
        }
        Ok(WithdrawAccounts { payer: accounts[0], vault: accounts[1] })
    }
}

} // verus!

verus! {

/// Compares two byte strings.
pub fn same_bytes(a: &[u8], b: &[u8]) -> (r: bool)
    ensures
        r == (a@ == b@),
{
    if a.len() != b.len() {
        return false;
    }
    let mut i: usize = 0;
    while i < a.len()
        invariant
            0 <= i <= a@.len(),
            a@.len() == b@.len(),
            forall|j: int| 0 <= j < i ==> a@[j] == b@[j],
        decreases a@.len() - i,
    {
        if a[i] != b[i] {
            return false;
        }
        i += 1;
    }
    assert(a@ =~= b@);
    true
}

} // verus!
