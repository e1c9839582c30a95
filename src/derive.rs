//! Derivation of a vault's address from the key that controls it.
use vstd::prelude::*;

use crate::ID;

verus! {

/// Seed tag that every vault address is derived under.
pub const VAULT_SEED: [u8; 5] = [118, 97, 117, 108, 116];

/// The program-derived address and bump that the ledger finds for `seeds` under
/// `program_id`: the first bump, searching downward from 255, whose hash lies off
/// the signing curve.
pub uninterp spec fn program_address(seeds: Seq<Seq<u8>>, program_id: Seq<u8>) -> (Seq<u8>, u8);

/// The seeds of the vault of a compressed key: the tag, the prefix byte, the coordinate.
pub open spec fn vault_seeds(pubkey: Seq<u8>) -> Seq<Seq<u8>> {
    seq![VAULT_SEED@, pubkey.subrange(0, 1), pubkey.subrange(1, 33)]
}

/// The canonical vault address and bump of a compressed key under this program.
pub open spec fn vault_address(pubkey: Seq<u8>) -> (Seq<u8>, u8) {
    program_address(vault_seeds(pubkey), ID@)
}

/// The derivation of `pubkey`'s vault as the ledger reports it: `Some` where
/// its address search is at hand, `None` where it is not.
pub open spec fn derivation(pubkey: Seq<u8>, available: bool) -> Option<(Seq<u8>, u8)> {
    if available {
        Some(vault_address(pubkey))
    } else {
        None
    }
}

/// A derived address and bump as plain values.
pub open spec fn found_view(found: Option<([u8; 32], u8)>) -> Option<(Seq<u8>, u8)> {
    match found {
        Some(f) => Some((f.0@, f.1)),
        None => None,
    }
}

/// Relies on pinocchio::pubkey::try_find_program_address: an address it finds,
/// and its bump, depend on the seeds and the program alone. It gives `None` when
/// no bump works, when the seeds break the ledger's limits, and on any target
/// without the ledger's address syscall.
#[verifier::external_body]
fn try_find_program_address(
    tag: &[u8],
    prefix: &[u8],
    coordinate: &[u8],
    program_id: &[u8; 32],
) -> (r: Option<([u8; 32], u8)>)
    ensures
        r matches Some(found) ==> (found.0@, found.1) == program_address(
            seq![tag@, prefix@, coordinate@],
            program_id@,
        ),
{
    pinocchio::pubkey::try_find_program_address(&[tag, prefix, coordinate], program_id)
}

/// Derives the vault address and bump of `pubkey`; `None` where the ledger
/// gives none.
pub fn derive_vault_address(pubkey: &[u8; 33]) -> (r: Option<([u8; 32], u8)>)
    ensures
        r matches Some(found) ==> (found.0@, found.1) == vault_address(pubkey@),
{
    let key = vstd::array::array_as_slice(pubkey);
    let prefix = vstd::slice::slice_subrange(key, 0, 1);
    let coordinate = vstd::slice::slice_subrange(key, 1, 33);
    let tag = vstd::array::array_as_slice(&VAULT_SEED);
    let program_id: [u8; 32] = ID;
    let r = try_find_program_address(tag, prefix, coordinate, &program_id);
    assert(seq![tag@, prefix@, coordinate@] =~= vault_seeds(pubkey@));
    r
}

/// Derivation is deterministic: two derivations for one key that both succeed
/// give the same address and the same bump.
pub proof fn lemma_derivation_deterministic(
    pubkey: Seq<u8>,
    first: (Seq<u8>, u8),
    second: (Seq<u8>, u8),
)
    requires
        pubkey.len() == 33,
        first == vault_address(pubkey),
        second == vault_address(pubkey),
    ensures
        first.0 == second.0,
        first.1 == second.1,
{
}

} // verus!
