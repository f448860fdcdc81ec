//! The witness codec and the ECDSA-recovery based signature verifier.
//!
//! A witness is a 65-byte string: a 64-byte signature followed by a one-byte
//! recovery discriminant.  A spend is authorized when public-key recovery
//! from a message hash, the signature and the discriminant yields exactly
//! the 64-byte public key stored in the record's `verification_data`.

use crate::bytes::bytes_equal;
use crate::error::UTXOError;
use vstd::prelude::*;

verus! {

/// The byte length of a signature inside a witness.
pub const SIGNATURE_LEN: usize = 64;

/// The byte length of an uncompressed recovered public key.
pub const PUBLIC_KEY_LEN: usize = 64;

/// The byte length of a witness: signature plus recovery discriminant.
pub const WITNESS_LEN: usize = 64 + 1;

/// The Keccak-256 digest of a byte string: 32 bytes depending on the input
/// alone.
pub uninterp spec fn keccak_of(data: Seq<u8>) -> Seq<u8>;

/// Relies on `solana_program::keccak::hash`: the Keccak-256 digest, a pure
/// function of the input bytes.
#[verifier::external_body]
pub(crate) fn keccak256(data: &[u8]) -> (r: [u8; 32])
    ensures
        r@ == keccak_of(data@),
{
    solana_program::keccak::hash(data).to_bytes()
}

/// What elliptic-curve public-key recovery yields for a message hash, a
/// recovery discriminant and a signature: the 64-byte uncompressed public
/// key, or nothing when recovery fails.  Pure curve arithmetic: a function
/// of the three arguments alone.
pub uninterp spec fn recover_of(hash: Seq<u8>, recovery_id: u8, signature: Seq<u8>) -> Option<
    Seq<u8>,
>;

/// Relies on `solana_program::secp256k1_recover::secp256k1_recover`:
/// deterministic secp256k1 public-key recovery; every failure of the
/// underlying recovery is collapsed to `None`.
#[verifier::external_body]
fn recover_public_key(hash: &[u8], recovery_id: u8, signature: &[u8]) -> (r: Option<[u8; 64]>)
    ensures
        match r {
            Some(key) => recover_of(hash@, recovery_id, signature@) == Some(key@),
            None => recover_of(hash@, recovery_id, signature@) is None,
        },
{
    match solana_program::secp256k1_recover::secp256k1_recover(hash, recovery_id, signature) {
        Ok(key) => Some(key.to_bytes()),
        Err(_) => None,
    }
}

/// The spend-authorization predicate: recovery from `(hash, recovery_id,
/// signature)` succeeds and returns exactly `expected_key`.
pub open spec fn signature_valid(
    hash: Seq<u8>,
    signature: Seq<u8>,
    recovery_id: u8,
    expected_key: Seq<u8>,
) -> bool {
    recover_of(hash, recovery_id, signature) == Some(expected_key)
}

/// Recover a public key from `(hash, reid, sig)` and require it to equal
/// `target_key` byte for byte.
pub fn verify_ecdsa_signature(hash: &[u8], sig: &[u8], reid: u8, target_key: &[u8]) -> (r: Result<
    (),
    UTXOError,
>)
    ensures
        r is Ok <==> signature_valid(hash@, sig@, reid, target_key@),
        r is Err ==> r == Err::<(), UTXOError>(UTXOError::InvalidWitness),
{
    match recover_public_key(hash, reid, sig) {
        Some(key) => {
            if bytes_equal(key.as_slice(), target_key) {
                Ok(())
            } else {
                Err(UTXOError::InvalidWitness)
            }
        },
        None => Err(UTXOError::InvalidWitness),
    }
}

/// Split a witness into its signature and recovery discriminant.  Accepts
/// exactly the 65-byte wire format and rejects every other length.
pub fn parse_witness(witness: &Vec<u8>) -> (r: Result<(Vec<u8>, u8), UTXOError>)
    ensures
        match r {
            Ok((sig, reid)) => witness@.len() == WITNESS_LEN && sig@ == witness@.subrange(0, 64)
                && reid == witness@[64],
            Err(e) => witness@.len() != WITNESS_LEN && e == UTXOError::InvalidWitness,
        },
{
    if witness.len() != WITNESS_LEN {
        return Err(UTXOError::InvalidWitness);
    }
    let mut sig: Vec<u8> = Vec::new();
    let mut i: usize = 0;
    while i < SIGNATURE_LEN
        invariant
            witness@.len() == 65,
            i <= 64,
            sig@ == witness@.subrange(0, i as int),
        decreases 64 - i,
    {
        sig.push(witness[i]);
        proof {
            assert(sig@ =~= witness@.subrange(0, i + 1));
        }
        i += 1;
    }
    Ok((sig, witness[64]))
}

} // verus!
