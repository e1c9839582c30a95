use vstd::prelude::*;

verus! {

/// Every way an instruction of the vault can fail.
#[derive(Debug, Clone, Copy, PartialEq, Eq, Structural)]
pub enum VaultError {
    /// A payload does not have the exact length of its layout.
    InvalidInstructionData,
    /// The discriminator byte names no known operation.
    UnknownInstruction,
    /// The instruction data is empty: there is no discriminator.
    EmptyInstructionData,
    /// Fewer accounts than the operation needs were supplied.
    NotEnoughAccountKeys,
    /// The deposit payer did not sign the transaction.
    MissingSignature,
    /// The vault account is not owned by the system program.
    InvalidOwner,
    /// The vault account already holds funds.
    VaultNotEmpty,
    /// The vault account is not the address derived from the key.
    AddressMismatch,
    /// The preceding instruction is absent or not a signature verification.
    MissingAttestation,
    /// The signature verification payload does not follow its layout.
    MalformedAttestation,
    /// The attested message is not the expected withdrawal message.
    MessageMismatch,
    /// No bump yields a valid derived address for the key.
    NoValidAddress,
}

} // verus!
