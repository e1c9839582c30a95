//! Fixed-layout payloads of the two operations.
use vstd::prelude::*;
use vstd::bytes::{
    lemma_auto_spec_u64_to_from_le_bytes, spec_u64_from_le_bytes, spec_u64_to_le_bytes,
    u64_from_le_bytes, u64_to_le_bytes,
};

use pinocchio_secp256r1_instruction::Secp256r1Pubkey;

use crate::error::VaultError;

verus! {

/// Length of a compressed SECP256R1 public key: a parity prefix and a coordinate.
pub const PUBKEY_LEN: usize = 33;

/// Length of an encoded deposit payload: the key and a little-endian `u64`.
pub const DEPOSIT_DATA_LEN: usize = 41;

/// Length of an encoded withdraw payload: the bump.
pub const WITHDRAW_DATA_LEN: usize = 1;

/// Payload of a deposit: the key that controls the vault and the amount.
#[derive(Clone, Copy)]
pub struct DepositInstructionData {
    pub pubkey: Secp256r1Pubkey,
    pub amount: u64,
}

/// Payload of a withdrawal: the bump of the vault address.
#[derive(Clone, Copy)]
pub struct WithdrawInstructionData {
    pub bump: [u8; 1],
}

/// The bytes of a deposit payload: the key, then the amount in little-endian order.
pub open spec fn deposit_bytes(pubkey: Seq<u8>, amount: u64) -> Seq<u8> {
    pubkey + spec_u64_to_le_bytes(amount)
}

/// The key that a 41-byte deposit payload carries.
pub open spec fn deposit_pubkey_of(data: Seq<u8>) -> Seq<u8> {
    data.subrange(0, 33)
}

/// The amount that a 41-byte deposit payload carries.
pub open spec fn deposit_amount_of(data: Seq<u8>) -> u64 {
    spec_u64_from_le_bytes(data.subrange(33, 41))
}

/// The bytes of a withdraw payload.
pub open spec fn withdraw_bytes(bump: u8) -> Seq<u8> {
    seq![bump]
}

/// The bump that a one-byte withdraw payload carries.
pub open spec fn withdraw_bump_of(data: Seq<u8>) -> u8 {
    data[0]
}

impl DepositInstructionData {
    /// Decodes a deposit payload; only the exact length of the layout is accepted.
    pub fn try_from(data: &[u8]) -> (r: Result<DepositInstructionData, VaultError>)
        ensures
            r is Err <==> data@.len() != 41,
            r is Err ==> r == Err::<DepositInstructionData, VaultError>(
                VaultError::InvalidInstructionData,
            ),
            r matches Ok(d) ==> d.pubkey@ == deposit_pubkey_of(data@) && d.amount
                == deposit_amount_of(data@),
    {
        if data.len() != DEPOSIT_DATA_LEN {
            return Err(VaultError::InvalidInstructionData);
        }
        let mut pubkey: [u8; 33] = [0u8; 33];
        let mut i: usize = 0;
        while i < PUBKEY_LEN
            invariant
                data@.len() == 41,
                0 <= i <= 33,
                pubkey@.len() == 33,
                forall|j: int| 0 <= j < i ==> pubkey@[j] == data@[j],
            decreases 33 - i,
        {
            pubkey.set(i, data[i]);
            i += 1;
        }
        assert(pubkey@ =~= data@.subrange(0, 33));
        let amount_bytes = vstd::slice::slice_subrange(data, PUBKEY_LEN, DEPOSIT_DATA_LEN);
        let amount = u64_from_le_bytes(amount_bytes);
        Ok(DepositInstructionData { pubkey, amount })
    }

    /// Encodes the payload in its fixed layout.
    pub fn to_bytes(&self) -> (r: Vec<u8>)
        ensures
            r@ == deposit_bytes(self.pubkey@, self.amount),
            r@.len() == 41,
    {
        let mut out: Vec<u8> = Vec::new();
        let mut i: usize = 0;
        while i < PUBKEY_LEN
            invariant
                0 <= i <= 33,
                self.pubkey@.len() == 33,
                out@ == self.pubkey@.subrange(0, i as int),
            decreases 33 - i,
        {
            out.push(self.pubkey[i]);
            assert(out@ =~= self.pubkey@.subrange(0, i + 1));
            i += 1;
        }
        assert(out@ =~= self.pubkey@);
        let mut amount_bytes = u64_to_le_bytes(self.amount);
        out.append(&mut amount_bytes);
        proof {
            lemma_auto_spec_u64_to_from_le_bytes();
        }
        out
    }
}

impl WithdrawInstructionData {
    /// Decodes a withdraw payload; only a single byte is accepted.
    pub fn try_from(data: &[u8]) -> (r: Result<WithdrawInstructionData, VaultError>)
        ensures
            r is Err <==> data@.len() != 1,
            r is Err ==> r == Err::<WithdrawInstructionData, VaultError>(
                VaultError::InvalidInstructionData,
            ),
            r matches Ok(d) ==> d.bump[0] == withdraw_bump_of(data@),
    {
        if data.len() != WITHDRAW_DATA_LEN {
            return Err(VaultError::InvalidInstructionData);
        }
        let bump: [u8; 1] = [data[0]];
        Ok(WithdrawInstructionData { bump })
    }

    /// Encodes the payload: the bump byte alone.
    pub fn to_bytes(&self) -> (r: Vec<u8>)
        ensures
            r@ == withdraw_bytes(self.bump[0]),
    {
        let mut out: Vec<u8> = Vec::new();
        out.push(self.bump[0]);
        assert(out@ =~= withdraw_bytes(self.bump[0]));
        out
    }
}

/// Encoding a deposit payload and decoding the bytes gives back its key and amount.
pub proof fn lemma_deposit_round_trip(pubkey: Seq<u8>, amount: u64)
    requires
        pubkey.len() == 33,
    ensures
        deposit_bytes(pubkey, amount).len() == 41,
        deposit_pubkey_of(deposit_bytes(pubkey, amount)) == pubkey,
        deposit_amount_of(deposit_bytes(pubkey, amount)) == amount,
{
    lemma_auto_spec_u64_to_from_le_bytes();
    let b = deposit_bytes(pubkey, amount);
    assert(b.subrange(0, 33) =~= pubkey);
    assert(b.subrange(33, 41) =~= spec_u64_to_le_bytes(amount));
}

/// Decoding a 41-byte deposit payload and encoding the result gives back the bytes.
pub proof fn lemma_deposit_bytes_round_trip(data: Seq<u8>)
    requires
        data.len() == 41,
    ensures
        deposit_bytes(deposit_pubkey_of(data), deposit_amount_of(data)) == data,
{
    lemma_auto_spec_u64_to_from_le_bytes();
    assert(spec_u64_to_le_bytes(spec_u64_from_le_bytes(data.subrange(33, 41))) == data.subrange(
        33,
        41,
    ));
    assert(deposit_bytes(deposit_pubkey_of(data), deposit_amount_of(data)) =~= data);
}

/// Encoding a withdraw payload and decoding the bytes gives back its bump.
pub proof fn lemma_withdraw_round_trip(bump: u8)
    ensures
        withdraw_bytes(bump).len() == 1,
        withdraw_bump_of(withdraw_bytes(bump)) == bump,
{
}

/// Decoding a one-byte withdraw payload and encoding the result gives back the bytes.
pub proof fn lemma_withdraw_bytes_round_trip(data: Seq<u8>)
    requires
        data.len() == 1,
    ensures
        withdraw_bytes(withdraw_bump_of(data)) == data,
{
    assert(withdraw_bytes(withdraw_bump_of(data)) =~= data);
}

} // verus!
