//! Deterministic, non-signable storage addresses.
//!
//! Every storage cell of the ledger lives at an address derived from a
//! 32-byte seed and the identity of the owning module.  The derivation scans
//! a one-byte discriminant ("bump") from the canonical upper bound downward
//! until the combination maps to an address that is guaranteed not to be a
//! valid public key, so that no holder of a secret key can sign for it.

use vstd::prelude::*;

verus! {

/// What the runtime's program-derived addressing returns for a seed and an
/// owning module identity: the first off-curve address together with the
/// discriminant that produced it, or nothing in the (practically
/// unreachable) event that no discriminant works.  The result is a function
/// of the seed and the owner alone.
pub uninterp spec fn pda_of(seed: Seq<u8>, owner: Seq<u8>) -> Option<(Seq<u8>, u8)>;

/// The derived address for `(seed, owner)` exists and equals `key`.
pub open spec fn pda_matches(seed: Seq<u8>, owner: Seq<u8>, key: Seq<u8>) -> bool {
    match pda_of(seed, owner) {
        Some((addr, _bump)) => addr == key,
        None => false,
    }
}

/// Relies on `solana_program::pubkey::Pubkey::try_find_program_address`: a
/// deterministic search over bump discriminants, from the highest downward,
/// that returns the first resulting address that is not on the signing
/// curve; a pure function of the seed and the owning identity.
#[verifier::external_body]
fn find_program_address(seed: &[u8; 32], owner: &[u8; 32]) -> (r: Option<([u8; 32], u8)>)
    ensures
        match r {
            Some((addr, bump)) => pda_of(seed@, owner@) == Some((addr@, bump)),
            None => pda_of(seed@, owner@) is None,
        },
{
    let owner_key = solana_program::pubkey::Pubkey::new_from_array(*owner);
    let derived = solana_program::pubkey::Pubkey::try_find_program_address(
        &[seed.as_slice()],
        &owner_key,
    );
    derived.map(|(addr, bump)| (addr.to_bytes(), bump))
}

/// Derive the storage address owned by `owner` for `seed`, with the
/// discriminant that produced it.  Deterministic: the result is a function
/// of `(seed, owner)` and nothing else.  Returns `None` only when no
/// discriminant in the byte range yields an off-curve address, which callers
/// treat as fatal.
pub fn derive_address(seed: &[u8; 32], owner: &[u8; 32]) -> (r: Option<([u8; 32], u8)>)
    ensures
        match r {
            Some((addr, bump)) => pda_of(seed@, owner@) == Some((addr@, bump)),
            None => pda_of(seed@, owner@) is None,
        },
{
    find_program_address(seed, owner)
}

/// Whether the cell address `key` is the one derived for `(seed, owner)`.
pub fn check_derived_key(seed: &[u8; 32], owner: &[u8; 32], key: &[u8; 32]) -> (r: bool)
    ensures
        r == pda_matches(seed@, owner@, key@),
{
    match derive_address(seed, owner) {
        Some((addr, _bump)) => crate::bytes::bytes_equal(addr.as_slice(), key.as_slice()),
        None => false,
    }
}

/// Law: address derivation is deterministic and idempotent.  Any two
/// derivations from the same seed and owner yield the same address and the
/// same discriminant; this is what repeated calls of [`derive_address`] return.
pub proof fn lemma_derive_deterministic(
    seed: Seq<u8>,
    owner: Seq<u8>,
    r1: Option<(Seq<u8>, u8)>,
    r2: Option<(Seq<u8>, u8)>,
)
    requires
        r1 == pda_of(seed, owner),
        r2 == pda_of(seed, owner),
    ensures
        r1 == r2,
{
}

} // verus!
