//! Reading the signature verification that precedes a withdrawal.
use vstd::prelude::*;

use pinocchio_secp256r1_instruction::Secp256r1Pubkey;

use crate::error::VaultError;

verus! {

/// Address of the ledger's SECP256R1 signature verification program,
/// `Secp256r1SigVerify1111111111111111111111111`.
pub const SECP256R1_PROGRAM_ID: [u8; 32] = [
    0x06, 0x92, 0x0d, 0xec, 0x2f, 0xea, 0x71, 0xb5, 0xb7, 0x23, 0x81, 0x4d, 0x74, 0x2d, 0xa9, 0x03,
    0x1c, 0x83, 0xe7, 0x5f, 0xdb, 0x79, 0x5d, 0x56, 0x8e, 0x75, 0x47, 0x80, 0x20, 0x00, 0x00, 0x00,
];

/// Value of an instruction index field that points into the verification
/// instruction's own data.
pub const LOCAL_DATA_INDEX: u16 = 0xffff;

/// One instruction of the running transaction: the program it calls and its data.
pub struct SiblingInstruction {
    pub program_id: [u8; 32],
    pub data: Vec<u8>,
}

/// The instructions of the running transaction, and the position of the one
/// being executed.
pub struct InstructionList {
    pub current_index: usize,
    pub instructions: Vec<SiblingInstruction>,
}

/// The little-endian `u16` at `at` in `d`.
pub open spec fn u16_at(d: Seq<u8>, at: int) -> int {
    d[at] as int + 256 * (d[at + 1] as int)
}

/// The offset of the first signature's public key.
pub open spec fn key_offset(d: Seq<u8>) -> int {
    u16_at(d, 6)
}

/// The offset of the first signature's message.
pub open spec fn message_offset(d: Seq<u8>) -> int {
    u16_at(d, 10)
}

/// The length of the first signature's message.
pub open spec fn message_size(d: Seq<u8>) -> int {
    u16_at(d, 12)
}

/// Whether verification data `d` describes at least one signature whose public
/// key and message lie inside `d` itself. The data starts with the number of
/// signatures and a padding byte, then one 14-byte record of offsets per
/// signature: signature offset and instruction, key offset and instruction,
/// message offset, size and instruction, each a little-endian `u16`.
pub open spec fn first_signature_readable(d: Seq<u8>) -> bool {
    &&& d.len() >= 2
    &&& d[0] >= 1
    &&& d.len() >= 2 + 14 * (d[0] as int)
    &&& u16_at(d, 8) == LOCAL_DATA_INDEX
    &&& key_offset(d) + 33 <= d.len()
    &&& u16_at(d, 14) == LOCAL_DATA_INDEX
    &&& message_offset(d) + message_size(d) <= d.len()
}

/// The public key of the first signature of readable verification data.
pub open spec fn attested_key_of(d: Seq<u8>) -> Seq<u8> {
    d.subrange(key_offset(d), key_offset(d) + 33)
}

/// The message of the first signature of readable verification data.
pub open spec fn attested_message_of(d: Seq<u8>) -> Seq<u8> {
    d.subrange(message_offset(d), message_offset(d) + message_size(d))
}

/// Relies on pinocchio_secp256r1_instruction: `Secp256r1Instruction::try_from`
/// on the raw data, then `get_signer(0)` and `get_message_data(0)`, which read
/// the offsets record of the first signature and refuse offsets that point
/// outside the data or into another instruction.
#[verifier::external_body]
fn read_first_signature(data: &[u8]) -> (r: Option<(Secp256r1Pubkey, Vec<u8>)>)
    ensures
        r is Some <==> first_signature_readable(data@),
        r matches Some(p) ==> p.0@ == attested_key_of(data@) && p.1@ == attested_message_of(
            data@,
        ),
{
    let ix = pinocchio_secp256r1_instruction::Secp256r1Instruction::try_from(data).ok()?;
    let signer = ix.get_signer(0).ok()?;
    let message = ix.get_message_data(0).ok()?;
    Some((*signer, message.to_vec()))
}

/// What a withdrawal learns from the instruction before it: the attested key
/// and message, or why there are none.
pub open spec fn attestation_of(ctx: InstructionList) -> Result<(Seq<u8>, Seq<u8>), VaultError> {
    let n = ctx.current_index as int;
    if n == 0 || n > ctx.instructions@.len() {
        Err(VaultError::MissingAttestation)
    } else if ctx.instructions@[n - 1].program_id@ != SECP256R1_PROGRAM_ID@ {
        Err(VaultError::MissingAttestation)
    } else if !first_signature_readable(ctx.instructions@[n - 1].data@) {
        Err(VaultError::MalformedAttestation)
    } else {
        Ok(
            (
                attested_key_of(ctx.instructions@[n - 1].data@),
                attested_message_of(ctx.instructions@[n - 1].data@),
            ),
        )
    }
}

/// Reads the key and message attested by the instruction immediately before
/// the current one, which must come from the signature verification program.
pub fn read_attestation(ctx: &InstructionList) -> (r: Result<(Secp256r1Pubkey, Vec<u8>), VaultError>)
    ensures
        attestation_of(*ctx) matches Err(e) ==> r == Err::<(Secp256r1Pubkey, Vec<u8>), VaultError>(e),
        attestation_of(*ctx) matches Ok(a) ==> (r matches Ok(p) ==> p.0@ == a.0 && p.1@ == a.1)
            && r is Ok,
{
    let n = ctx.current_index;
    if n == 0 || n > ctx.instructions.len() {
        return Err(VaultError::MissingAttestation);
    }
    let previous = &ctx.instructions[n - 1];
    let verifier: [u8; 32] = SECP256R1_PROGRAM_ID;
    if !crate::accounts::same_address(&previous.program_id, &verifier) {
        return Err(VaultError::MissingAttestation);
    }
    match read_first_signature(previous.data.as_slice()) {
        None => Err(VaultError::MalformedAttestation),
        Some(found) => Ok(found),
    }
}

} // verus!
