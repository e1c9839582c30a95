//! Routing an instruction to its operation by its first byte.
use vstd::prelude::*;

use crate::accounts::AccountState;
use crate::attestation::InstructionList;
use crate::deposit::{deposit_instruction_outcome, process_deposit, DEPOSIT_DISCRIMINATOR};
use crate::error::VaultError;
use crate::transfer::Transfer;
use crate::withdraw::{process_withdraw, withdraw_instruction_result, WITHDRAW_DISCRIMINATOR};

verus! {

/// Runs one instruction of the vault. The first byte of `data` selects the
/// operation and the rest is its payload; an empty `data` or an unknown first
/// byte fails before any account is read.
pub fn process_instruction(accounts: &[AccountState], data: &[u8], ctx: &InstructionList) -> (r:
    Result<Transfer, VaultError>)
    ensures
        data@.len() == 0 ==> r == Err::<Transfer, VaultError>(VaultError::EmptyInstructionData),
        data@.len() > 0 && data@[0] != DEPOSIT_DISCRIMINATOR && data@[0] != WITHDRAW_DISCRIMINATOR
            ==> r == Err::<Transfer, VaultError>(VaultError::UnknownInstruction),
        data@.len() > 0 && data@[0] == DEPOSIT_DISCRIMINATOR ==> r == deposit_instruction_outcome(
            accounts@,
            data@.drop_first(),
            true,
        ) || r == deposit_instruction_outcome(accounts@, data@.drop_first(), false),
        data@.len() > 0 && data@[0] == WITHDRAW_DISCRIMINATOR ==> withdraw_instruction_result(
            r,
            accounts@,
            data@.drop_first(),
            *ctx,
            true,
        ) || withdraw_instruction_result(r, accounts@, data@.drop_first(), *ctx, false),
{
    if data.len() == 0 {
        return Err(VaultError::EmptyInstructionData);
    }
    let payload = vstd::slice::slice_subrange(data, 1, data.len());
    assert(payload@ =~= data@.drop_first());
    if data[0] == DEPOSIT_DISCRIMINATOR {
        process_deposit(payload, accounts)
    } else if data[0] == WITHDRAW_DISCRIMINATOR {
        process_withdraw(payload, accounts, ctx)
    } else {
        Err(VaultError::UnknownInstruction)
    }
}

} // verus!
