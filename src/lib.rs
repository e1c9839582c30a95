//! A custody vault whose funds are bound to a SECP256R1 public key.
//!
//! Deposits go to an address derived from the key; a withdrawal is released
//! only when the transaction's preceding instruction is a signature
//! verification, by the trusted verifier, for that same key.
use vstd::prelude::*;

pub mod error;
pub mod codec;
pub mod derive;
pub mod accounts;
pub mod transfer;
pub mod deposit;
pub mod attestation;
pub mod withdraw;
pub mod dispatch;

pub use error::VaultError;
pub use accounts::{AccountState, DepositAccounts, WithdrawAccounts};
pub use attestation::{InstructionList, SiblingInstruction};
pub use codec::{DepositInstructionData, WithdrawInstructionData};
pub use deposit::Deposit;
pub use dispatch::process_instruction;
pub use transfer::{Transfer, VaultSigner};
pub use withdraw::Withdraw;

verus! {

/// Address of this program on the ledger.
pub const ID: [u8; 32] = [
    230, 135, 119, 233, 135, 243, 236, 14, 153, 159, 151, 222, 120, 91, 225, 54,
    93, 91, 22, 210, 247, 75, 77, 247, 215, 1, 254, 228, 174, 57, 136, 61,
];

} // verus!
