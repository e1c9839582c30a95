//! Releasing a vault's funds on a verified signature of its key.
use vstd::prelude::*;

use crate::accounts::{AccountState, WithdrawAccounts};
use crate::attestation::{
    attestation_of, attested_key_of, attested_message_of, first_signature_readable,
    read_attestation, InstructionList, SECP256R1_PROGRAM_ID,
};
use crate::codec::{withdraw_bump_of, WithdrawInstructionData};
use crate::derive::{derivation, derive_vault_address, found_view, vault_address};
use crate::error::VaultError;
use crate::transfer::{balance_after, Transfer, VaultSigner, PAYER_INDEX, VAULT_INDEX};

verus! {

/// Discriminator byte of a withdrawal.
pub const WITHDRAW_DISCRIMINATOR: u8 = 1;

/// A checked withdrawal, ready to be processed.
#[derive(Clone, Copy)]
pub struct Withdraw {
    pub accounts: WithdrawAccounts,
    pub instruction_data: WithdrawInstructionData,
}

/// The message the key's holder signs to release a vault: the address of the
/// payer that receives the funds.
pub open spec fn expected_message(payer: Seq<u8>) -> Seq<u8> {
    payer
}

/// Whether a withdrawal with the attested `message` is authorized, given the
/// derivation of the attested key, and if not, why.
pub open spec fn authorize_status(
    payer_key: Seq<u8>,
    vault_key: Seq<u8>,
    bump: u8,
    message: Seq<u8>,
    derived: Option<(Seq<u8>, u8)>,
) -> Result<(), VaultError> {
    match derived {
        None => Err(VaultError::NoValidAddress),
        Some(found) => if found.0 != vault_key || found.1 != bump {
            Err(VaultError::AddressMismatch)
        } else if message != expected_message(payer_key) {
            Err(VaultError::MessageMismatch)
        } else {
            Ok(())
        },
    }
}

/// Whether `t` sweeps a vault holding `vault_lamports` to the payer, signed
/// for by the vault address of `key` with `bump`.
pub open spec fn is_sweep(t: Transfer, vault_lamports: u64, bump: u8, key: Seq<u8>) -> bool {
    &&& t.from == VAULT_INDEX
    &&& t.to == PAYER_INDEX
    &&& t.lamports == vault_lamports
    &&& t.vault_signer matches Some(s) && s.pubkey@ == key && s.bump == bump
}

/// Whether `r` is what a withdrawal whose status is `status` returns.
pub open spec fn withdraw_result(
    r: Result<Transfer, VaultError>,
    status: Result<(), VaultError>,
    vault_lamports: u64,
    bump: u8,
    key: Seq<u8>,
) -> bool {
    match status {
        Err(e) => r == Err::<Transfer, VaultError>(e),
        Ok(_) => r matches Ok(t) && is_sweep(t, vault_lamports, bump, key),
    }
}

/// Whether a checked withdrawal succeeds, and if not, why: the attestation is
/// read first, then the key's vault address is compared with the vault and the
/// bump, then the message is compared with the expected one.
pub open spec fn withdraw_status(w: Withdraw, ctx: InstructionList, available: bool) -> Result<
    (),
    VaultError,
> {
    match attestation_of(ctx) {
        Err(e) => Err(e),
        Ok(a) => authorize_status(
            w.accounts.payer.key@,
            w.accounts.vault.key@,
            w.instruction_data.bump[0],
            a.1,
            derivation(a.0, available),
        ),
    }
}

/// Whether a withdraw instruction succeeds, and if not, why: the accounts and
/// the payload are checked before the attestation.
pub open spec fn withdraw_instruction_status(
    accounts: Seq<AccountState>,
    data: Seq<u8>,
    ctx: InstructionList,
    available: bool,
) -> Result<(), VaultError> {
    if accounts.len() < 4 {
        Err(VaultError::NotEnoughAccountKeys)
    } else if data.len() != 1 {
        Err(VaultError::InvalidInstructionData)
    } else {
        match attestation_of(ctx) {
            Err(e) => Err(e),
            Ok(a) => authorize_status(
                accounts[0].key@,
                accounts[1].key@,
                withdraw_bump_of(data),
                a.1,
                derivation(a.0, available),
            ),
        }
    }
}

/// Whether `r` is what a withdraw instruction returns.
pub open spec fn withdraw_instruction_result(
    r: Result<Transfer, VaultError>,
    accounts: Seq<AccountState>,
    data: Seq<u8>,
    ctx: InstructionList,
    available: bool,
) -> bool {
    match withdraw_instruction_status(accounts, data, ctx, available) {
        Err(e) => r == Err::<Transfer, VaultError>(e),
        Ok(_) => r matches Ok(t) && attestation_of(ctx) matches Ok(a) && is_sweep(
            t,
            accounts[1].lamports,
            withdraw_bump_of(data),
            a.0,
        ),
    }
}

impl Withdraw {
    /// Checks the accounts, then decodes the payload.
    pub fn try_from(data: &[u8], accounts: &[AccountState]) -> (r: Result<Withdraw, VaultError>)
        ensures
            accounts@.len() < 4 ==> r == Err::<Withdraw, VaultError>(
                VaultError::NotEnoughAccountKeys,
            ),
            accounts@.len() >= 4 && data@.len() != 1 ==> r == Err::<Withdraw, VaultError>(
                VaultError::InvalidInstructionData,
            ),
            accounts@.len() >= 4 && data@.len() == 1 ==> (r matches Ok(w) ==> w.accounts.payer
                == accounts@[0] && w.accounts.vault == accounts@[1] && w.instruction_data.bump[0]
                == withdraw_bump_of(data@)) && r is Ok,
    {
        let accounts = WithdrawAccounts::try_from(accounts)?;
        let instruction_data = WithdrawInstructionData::try_from(data)?;
        Ok(Withdraw { accounts, instruction_data })
    }

    /// Authorizes the withdrawal for the attested `key` and `message`, given
    /// `derived`, the derivation of `key`: the derived address must be the vault
    /// and its bump the supplied one, and the message the expected one. Then
    /// the vault's whole balance moves to the payer.
    pub fn authorize(&self, key: &[u8; 33], message: &[u8], derived: Option<([u8; 32], u8)>) -> (r:
        Result<Transfer, VaultError>)
        ensures
            withdraw_result(
                r,
                authorize_status(
                    self.accounts.payer.key@,
                    self.accounts.vault.key@,
                    self.instruction_data.bump[0],
                    message@,
                    found_view(derived),
                ),
                self.accounts.vault.lamports,
                self.instruction_data.bump[0],
                key@,
            ),
    {
        match derived {
            None => Err(VaultError::NoValidAddress),
            Some(found) => {
                if !crate::accounts::same_address(&found.0, &self.accounts.vault.key)
                    || found.1 != self.instruction_data.bump[0] {
                    return Err(VaultError::AddressMismatch);
                }
                let payer = vstd::array::array_as_slice(&self.accounts.payer.key);
                if !crate::accounts::same_bytes(message, payer) {
                    return Err(VaultError::MessageMismatch);
                }
                Ok(
                    Transfer {
                        from: VAULT_INDEX,
                        to: PAYER_INDEX,
                        lamports: self.accounts.vault.lamports,
                        vault_signer: Some(
                            VaultSigner { pubkey: *key, bump: self.instruction_data.bump[0] },
                        ),
                    },
                )
            },
        }
    }

    /// Reads the preceding attestation, derives the vault of its key, and
    /// authorizes the withdrawal against both.
    pub fn process(&self, ctx: &InstructionList) -> (r: Result<Transfer, VaultError>)
        ensures
            attestation_of(*ctx) matches Err(e) ==> r == Err::<Transfer, VaultError>(e),
            attestation_of(*ctx) matches Ok(a) ==> withdraw_result(
                r,
                withdraw_status(*self, *ctx, true),
                self.accounts.vault.lamports,
                self.instruction_data.bump[0],
                a.0,
            ) || withdraw_result(
                r,
                withdraw_status(*self, *ctx, false),
                self.accounts.vault.lamports,
                self.instruction_data.bump[0],
                a.0,
            ),
    {
        let (key, message) = read_attestation(ctx)?;
        let derived = derive_vault_address(&key);
        self.authorize(&key, message.as_slice(), derived)
    }
}

/// Runs a withdraw instruction from its accounts, payload and transaction.
pub fn process_withdraw(data: &[u8], accounts: &[AccountState], ctx: &InstructionList) -> (r:
    Result<Transfer, VaultError>)
    ensures
        withdraw_instruction_result(r, accounts@, data@, *ctx, true) || withdraw_instruction_result(
            r,
            accounts@,
            data@,
            *ctx,
            false,
        ),
{
    let withdraw = Withdraw::try_from(data, accounts)?;
    withdraw.process(ctx)
}

/// Whether the instruction before the current one exists and comes from the
/// signature verification program.
pub open spec fn preceded_by_verifier(ctx: InstructionList) -> bool {
    let n = ctx.current_index as int;
    &&& 1 <= n <= ctx.instructions@.len()
    &&& ctx.instructions@[n - 1].program_id@ == SECP256R1_PROGRAM_ID@
}

/// A withdraw instruction with its accounts and a one-byte payload succeeds
/// exactly when (a) the preceding instruction is a readable attestation of the
/// verification program, (b) the attested key derives to the supplied vault
/// with the supplied bump, and (c) the attested message is the expected one.
/// Breaking (a) fails with `MissingAttestation` whatever else holds; breaking
/// (b) alone with `AddressMismatch`; breaking (c) alone with `MessageMismatch`.
pub proof fn lemma_withdraw_authorization(
    accounts: Seq<AccountState>,
    data: Seq<u8>,
    ctx: InstructionList,
)
    requires
        accounts.len() >= 4,
        data.len() == 1,
    ensures
        ({
            let status = withdraw_instruction_status(accounts, data, ctx, true);
            let d = ctx.instructions@[ctx.current_index as int - 1].data@;
            let derives = vault_address(attested_key_of(d)).0 == accounts[1].key@ && vault_address(
                attested_key_of(d),
            ).1 == withdraw_bump_of(data);
            let signed = attested_message_of(d) == expected_message(accounts[0].key@);
            &&& status is Ok <==> (preceded_by_verifier(ctx) && first_signature_readable(d)
                && derives && signed)
            &&& !preceded_by_verifier(ctx) ==> status == Err::<(), VaultError>(
                VaultError::MissingAttestation,
            )
            &&& preceded_by_verifier(ctx) && first_signature_readable(d) && !derives ==> status
                == Err::<(), VaultError>(VaultError::AddressMismatch)
            &&& preceded_by_verifier(ctx) && first_signature_readable(d) && derives && !signed
                ==> status == Err::<(), VaultError>(VaultError::MessageMismatch)
        }),
{
}

/// A successful withdrawal moves the vault's whole balance to the payer: the
/// vault is left at zero and the payer gains exactly that balance.
pub proof fn lemma_withdraw_sweeps(
    r: Result<Transfer, VaultError>,
    accounts: Seq<AccountState>,
    data: Seq<u8>,
    ctx: InstructionList,
    available: bool,
)
    requires
        withdraw_instruction_result(r, accounts, data, ctx, available),
        r is Ok,
    ensures
        accounts.len() >= 4,
        r->Ok_0.lamports == accounts[1].lamports,
        balance_after(r->Ok_0, VAULT_INDEX as int, accounts[1].lamports) == Some(0int),
        accounts[0].lamports + accounts[1].lamports <= u64::MAX ==> balance_after(
            r->Ok_0,
            PAYER_INDEX as int,
            accounts[0].lamports,
        ) == Some(accounts[0].lamports + accounts[1].lamports),
{
}

} // verus!
