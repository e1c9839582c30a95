//! Funding a vault.
use vstd::prelude::*;

use crate::accounts::{deposit_accounts_check, AccountState, DepositAccounts};
use crate::codec::{deposit_amount_of, deposit_pubkey_of, DepositInstructionData};
use crate::derive::{derivation, derive_vault_address, found_view, vault_address};
use crate::error::VaultError;
use crate::transfer::{Transfer, PAYER_INDEX, VAULT_INDEX};

verus! {

/// Discriminator byte of a deposit.
pub const DEPOSIT_DISCRIMINATOR: u8 = 0;

/// A checked deposit, ready to be processed.
#[derive(Clone, Copy)]
pub struct Deposit {
    pub accounts: DepositAccounts,
    pub instruction_data: DepositInstructionData,
}

/// What a checked deposit yields, given the derivation of its key.
pub open spec fn deposit_outcome(d: Deposit, derived: Option<(Seq<u8>, u8)>) -> Result<
    Transfer,
    VaultError,
> {
    match derived {
        None => Err(VaultError::NoValidAddress),
        Some(found) => if found.0 != d.accounts.vault.key@ {
            Err(VaultError::AddressMismatch)
        } else {
            Ok(
                Transfer {
                    from: PAYER_INDEX,
                    to: VAULT_INDEX,
                    lamports: d.instruction_data.amount,
                    vault_signer: None,
                },
            )
        },
    }
}

/// Whether `d` is the deposit that the checks make of `accounts` and `data`.
pub open spec fn deposit_parsed(d: Deposit, accounts: Seq<AccountState>, data: Seq<u8>) -> bool {
    &&& d.accounts.payer == accounts[0]
    &&& d.accounts.vault == accounts[1]
    &&& d.instruction_data.pubkey@ == deposit_pubkey_of(data)
    &&& d.instruction_data.amount == deposit_amount_of(data)
}

/// What a deposit instruction yields: the account checks, then the payload,
/// then the address check against the derivation of the key.
pub open spec fn deposit_instruction_outcome(
    accounts: Seq<AccountState>,
    data: Seq<u8>,
    available: bool,
) -> Result<Transfer, VaultError> {
    match deposit_accounts_check(accounts) {
        Err(e) => Err(e),
        Ok(_) => if data.len() != 41 {
            Err(VaultError::InvalidInstructionData)
        } else if available {
            if vault_address(deposit_pubkey_of(data)).0 != accounts[1].key@ {
                Err(VaultError::AddressMismatch)
            } else {
                Ok(
                    Transfer {
                        from: PAYER_INDEX,
                        to: VAULT_INDEX,
                        lamports: deposit_amount_of(data),
                        vault_signer: None,
                    },
                )
            }
        } else {
            Err(VaultError::NoValidAddress)
        },
    }
}

impl Deposit {
    /// Checks the accounts, then decodes the payload.
    pub fn try_from(data: &[u8], accounts: &[AccountState]) -> (r: Result<Deposit, VaultError>)
        ensures
            deposit_accounts_check(accounts@) matches Err(e) ==> r == Err::<Deposit, VaultError>(
                e,
            ),
            deposit_accounts_check(accounts@) is Ok && data@.len() != 41 ==> r == Err::<
                Deposit,
                VaultError,
            >(VaultError::InvalidInstructionData),
            deposit_accounts_check(accounts@) is Ok && data@.len() == 41 ==> (r matches Ok(d)
                ==> deposit_parsed(d, accounts@, data@)) && r is Ok,
    {
        let accounts = DepositAccounts::try_from(accounts)?;
        let instruction_data = DepositInstructionData::try_from(data)?;
        Ok(Deposit { accounts, instruction_data })
    }

    /// Settles the deposit against `derived`, the derivation of its key: the
    /// vault must stand at the derived address; then the amount moves from the
    /// payer to the vault.
    pub fn process_with(&self, derived: Option<([u8; 32], u8)>) -> (r: Result<
        Transfer,
        VaultError,
    >)
        ensures
            r == deposit_outcome(*self, found_view(derived)),
    {
        match derived {
            None => Err(VaultError::NoValidAddress),
            Some(found) => {
                if !crate::accounts::same_address(&found.0, &self.accounts.vault.key) {
                    return Err(VaultError::AddressMismatch);
                }
                Ok(
                    Transfer {
                        from: PAYER_INDEX,
                        to: VAULT_INDEX,
                        lamports: self.instruction_data.amount,
                        vault_signer: None,
                    },
                )
            },
        }
    }

    /// Derives the vault of the deposit's key and settles the deposit against it.
    pub fn process(&self) -> (r: Result<Transfer, VaultError>)
        ensures
            r == deposit_outcome(*self, derivation(self.instruction_data.pubkey@, true)) || r
                == deposit_outcome(*self, derivation(self.instruction_data.pubkey@, false)),
    {
        let derived = derive_vault_address(&self.instruction_data.pubkey);
        self.process_with(derived)
    }
}

/// Runs a deposit instruction from its accounts and payload.
pub fn process_deposit(data: &[u8], accounts: &[AccountState]) -> (r: Result<Transfer, VaultError>)
    ensures
        r == deposit_instruction_outcome(accounts@, data@, true) || r
            == deposit_instruction_outcome(accounts@, data@, false),
{
    let deposit = Deposit::try_from(data, accounts)?;
    deposit.process()
}

/// A deposit whose accounts pass their checks, into an account that is not the
/// vault derived from the supplied key, fails with `AddressMismatch`.
pub proof fn lemma_deposit_wrong_address(accounts: Seq<AccountState>, data: Seq<u8>)
    requires
        deposit_accounts_check(accounts) is Ok,
        data.len() == 41,
        vault_address(deposit_pubkey_of(data)).0 != accounts[1].key@,
    ensures
        deposit_instruction_outcome(accounts, data, true) == Err::<Transfer, VaultError>(
            VaultError::AddressMismatch,
        ),
{
}

/// A deposit into a vault that already holds funds fails with `VaultNotEmpty`,
/// whatever its payload and whatever the derivation, once the payer has signed
/// and the system program owns the vault.
pub proof fn lemma_deposit_nonempty_vault(
    accounts: Seq<AccountState>,
    data: Seq<u8>,
    available: bool,
)
    requires
        accounts.len() >= 3,
        accounts[0].is_signer,
        accounts[1].owner@ == crate::accounts::SYSTEM_PROGRAM_ID@,
        accounts[1].lamports != 0,
    ensures
        deposit_instruction_outcome(accounts, data, available) == Err::<Transfer, VaultError>(
            VaultError::VaultNotEmpty,
        ),
{
}

} // verus!
