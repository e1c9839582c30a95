//! The movement of funds that a successful operation asks the ledger for.
use vstd::prelude::*;

verus! {

/// Position of the payer in the account list of either operation.
pub const PAYER_INDEX: usize = 0;

/// Position of the vault in the account list of either operation.
pub const VAULT_INDEX: usize = 1;

/// The vault address that must sign a transfer out of the vault: the key it
/// is derived from and its bump.
#[derive(Clone, Copy)]
pub struct VaultSigner {
    pub pubkey: [u8; 33],
    pub bump: u8,
}

/// A transfer of `lamports` from the account at position `from` of the
/// instruction's account list to the one at position `to`.
#[derive(Clone, Copy)]
pub struct Transfer {
    pub from: usize,
    pub to: usize,
    pub lamports: u64,
    pub vault_signer: Option<VaultSigner>,
}

/// The balance of `balance`'s account after `t`, where that account stands at
/// position `index`; `None` where a debit would exceed the balance or a credit
/// would overflow.
pub open spec fn balance_after(t: Transfer, index: int, balance: u64) -> Option<int> {
    if index == t.from && index == t.to {
        if t.lamports <= balance { Some(balance as int) } else { None }
    } else if index == t.from {
        if t.lamports <= balance { Some(balance - t.lamports) } else { None }
    } else if index == t.to {
        if balance + t.lamports <= u64::MAX { Some(balance + t.lamports) } else { None }
    } else {
        Some(balance as int)
    }
}

} // verus!
