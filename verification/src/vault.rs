//! Vault accounting: the verification module's admin record and the
//! deposit / withdraw operations that lock and release native value.
//!
//! A deposit is authorized purely by the payer supplying the funds and by
//! the record's data being self-consistent; a withdrawal is authorized by a
//! witness whose signature recovers, over the Keccak digest of the record's
//! cell address, to the public key stored in the record.

use crate::address::{check_derived_key, pda_matches};
use crate::base::{process_activate, process_deactivate, set_active_spec};
use crate::bytes::{be_bytes_of, be_u64, bytes_equal, decode_be_u64, encode_be_u64};
use crate::ecdsa::{keccak256, keccak_of, parse_witness, signature_valid, verify_ecdsa_signature, PUBLIC_KEY_LEN};
use crate::error::UTXOError;
use crate::state::{UtxoAccount, UtxoAccountView, UtxoView, VerificationAdmin};
use vstd::prelude::*;

verus! {

/// The fixed seed from which a deployment's admin cell address is derived.
pub open spec fn admin_seed_bytes() -> Seq<u8> {
    seq![
        97u8, 100, 109, 105, 110, 45, 101, 99, 100, 115, 97, 45, 118, 101, 114, 105, 102, 105, 99,
        97, 116, 105, 111, 110, 45, 97, 99, 99, 111, 117, 110, 116,
    ]
}

/// The fixed admin seed, as stored bytes: the ASCII string
/// `admin-ecdsa-verification-account`.
pub fn admin_seed() -> (r: [u8; 32])
    ensures
        r@ == admin_seed_bytes(),
{
    let r: [u8; 32] = [
        97u8, 100, 109, 105, 110, 45, 101, 99, 100, 115, 97, 45, 118, 101, 114, 105, 102, 105, 99,
        97, 116, 105, 111, 110, 45, 97, 99, 99, 111, 117, 110, 116,
    ];
    proof {
        assert(r@ =~= admin_seed_bytes());
    }
    r
}

/// What initializing the admin record does: requires the supplied cell to
/// sit at the address derived from the fixed admin seed under this
/// verification module, and refuses a record that is already initialized.
pub open spec fn init_admin_spec(
    program_id: Seq<u8>,
    admin_key: Seq<u8>,
    admin: VerificationAdmin,
) -> Result<VerificationAdmin, UTXOError> {
    if !pda_matches(admin_seed_bytes(), program_id, admin_key) {
        Err(UTXOError::WrongAdmin)
    } else if admin.is_initialized {
        Err(UTXOError::AlreadyInUse)
    } else {
        Ok(VerificationAdmin { total_locked: admin.total_locked, is_initialized: true })
    }
}

/// Initialize the admin record of the verification module `program_id`.
pub fn process_init_admin(
    program_id: &[u8; 32],
    admin_key: &[u8; 32],
    admin: &mut VerificationAdmin,
) -> (r: Result<(), UTXOError>)
    ensures
        match r {
            Ok(_) => init_admin_spec(program_id@, admin_key@, *old(admin)) == Ok::<
                VerificationAdmin,
                UTXOError,
            >(*final(admin)),
            Err(e) => ({
                &&& init_admin_spec(program_id@, admin_key@, *old(admin)) == Err::<
                    VerificationAdmin,
                    UTXOError,
                >(e)
                &&& *final(admin) == *old(admin)
            }),
        },
{
    let seed = admin_seed();
    if !check_derived_key(&seed, program_id, admin_key) {
        return Err(UTXOError::WrongAdmin);
    }
    if admin.is_initialized {
        return Err(UTXOError::AlreadyInUse);
    }
    admin.is_initialized = true;
    Ok(())
}

/// Check the self-consistency a deposit demands of a record's data: the
/// verification data must be exactly a 64-byte public key, and the content
/// data must be exactly the big-endian encoding of the deposited amount.
pub fn verify_utxo_data(
    verification_data: &Vec<u8>,
    content_data: &Vec<u8>,
    amount: u64,
) -> (r: Result<(), UTXOError>)
    ensures
        r is Ok <==> verification_data@.len() == 64 && content_data@ == be_bytes_of(amount),
        r is Err ==> r == Err::<(), UTXOError>(UTXOError::InvalidData),
{
    if verification_data.len() != PUBLIC_KEY_LEN {
        return Err(UTXOError::InvalidData);
    }
    let expected = encode_be_u64(amount);
    if !bytes_equal(content_data.as_slice(), expected.as_slice()) {
        return Err(UTXOError::InvalidData);
    }
    Ok(())
}

/// What a deposit does to the record: all checks in order, then activation.
pub open spec fn deposit_spec(
    program_id: Seq<u8>,
    slot: UtxoAccountView,
    amount: u64,
) -> Result<UtxoView, UTXOError> {
    if !slot.utxo.is_initialized {
        Err(UTXOError::NotInitialized)
    } else if !pda_matches(slot.utxo.account_seed, program_id, slot.key) {
        Err(UTXOError::WrongSeed)
    } else if slot.utxo.verification_data.len() != 64 {
        Err(UTXOError::InvalidData)
    } else if slot.utxo.content_data != be_bytes_of(amount) {
        Err(UTXOError::InvalidData)
    } else {
        set_active_spec(slot, true, true)
    }
}

/// Deposit `amount` of native value: activate the record in `utxo_slot` and
/// move the amount from the payer into the vault.
///
/// The surrounding runtime guarantees the payer can fund the transfer and
/// that the vault's aggregate cannot outgrow the native supply; both are
/// taken as preconditions here.
pub fn process_deposit_sol(
    program_id: &[u8; 32],
    vault: &mut VerificationAdmin,
    payer_balance: &mut u64,
    utxo_slot: &mut UtxoAccount,
    amount: u64,
) -> (r: Result<(), UTXOError>)
    requires
        amount <= *old(payer_balance),
        old(vault).total_locked + amount <= u64::MAX,
    ensures
        match r {
            Ok(_) => ({
                &&& deposit_spec(program_id@, old(utxo_slot)@, amount) == Ok::<UtxoView, UTXOError>(
                    final(utxo_slot)@.utxo,
                )
                &&& final(utxo_slot)@.key == old(utxo_slot)@.key
                &&& final(vault).total_locked == old(vault).total_locked + amount
                &&& final(vault).is_initialized == old(vault).is_initialized
                &&& *final(payer_balance) == *old(payer_balance) - amount
            }),
            Err(e) => ({
                &&& deposit_spec(program_id@, old(utxo_slot)@, amount) == Err::<UtxoView, UTXOError>(
                    e,
                )
                &&& *final(utxo_slot) == *old(utxo_slot)
                &&& *final(vault) == *old(vault)
                &&& *final(payer_balance) == *old(payer_balance)
            }),
        },
{
    if !utxo_slot.utxo.is_initialized {
        return Err(UTXOError::NotInitialized);
    }
    if !check_derived_key(&utxo_slot.utxo.account_seed, program_id, &utxo_slot.key) {
        return Err(UTXOError::WrongSeed);
    }
    verify_utxo_data(&utxo_slot.utxo.verification_data, &utxo_slot.utxo.content_data, amount)?;
    // The caller has just proved it can re-derive the cell address from the
    // stored seed under its own identity, which is what grants it the cell's
    // signing authority in the runtime.
    process_activate(utxo_slot, true)?;
    *payer_balance = *payer_balance - amount;
    vault.total_locked = vault.total_locked + amount;
    Ok(())
}

/// Law (conservation): a deposit of `amount` only ever activates a record
/// whose content data decodes back to `amount`; the later withdrawal of
/// that record therefore releases exactly what the deposit locked.
pub proof fn lemma_deposit_amount_is_what_withdraw_releases(
    program_id: Seq<u8>,
    slot: UtxoAccountView,
    amount: u64,
)
    requires
        deposit_spec(program_id, slot, amount) is Ok,
    ensures
        be_u64(slot.utxo.content_data) == amount,
{
    crate::bytes::lemma_be_round_trip(amount);
}

/// What a withdrawal does to the record: all checks in order, then
/// deactivation.  The signed message is the Keccak digest of the record's
/// own cell address.
pub open spec fn withdraw_spec(
    program_id: Seq<u8>,
    slot: UtxoAccountView,
    witness: Seq<u8>,
) -> Result<UtxoView, UTXOError> {
    if !slot.utxo.is_initialized {
        Err(UTXOError::NotInitialized)
    } else if !pda_matches(slot.utxo.account_seed, program_id, slot.key) {
        Err(UTXOError::WrongSeed)
    } else if witness.len() != 65 {
        Err(UTXOError::InvalidWitness)
    } else if !signature_valid(
        keccak_of(slot.key),
        witness.subrange(0, 64),
        witness[64],
        slot.utxo.verification_data,
    ) {
        Err(UTXOError::InvalidWitness)
    } else {
        set_active_spec(slot, true, false)
    }
}

/// Withdraw the amount a record holds: check the witness against the
/// record's stored public key, deactivate the record and move its amount
/// from the vault to the receiver.
///
/// The record must carry a decodable 8-byte amount (the deposit that
/// activated it established that), the vault must hold the amount, and the
/// receiver's balance must be able to take it; the runtime guarantees the
/// latter two.
pub fn process_withdraw_sol(
    program_id: &[u8; 32],
    vault: &mut VerificationAdmin,
    receiver_balance: &mut u64,
    utxo_slot: &mut UtxoAccount,
    witness: &Vec<u8>,
) -> (r: Result<(), UTXOError>)
    requires
        old(utxo_slot).utxo.content_data@.len() == 8,
        be_u64(old(utxo_slot).utxo.content_data@) <= old(vault).total_locked,
        *old(receiver_balance) + be_u64(old(utxo_slot).utxo.content_data@) <= u64::MAX,
    ensures
        match r {
            Ok(_) => ({
                &&& withdraw_spec(program_id@, old(utxo_slot)@, witness@) == Ok::<
                    UtxoView,
                    UTXOError,
                >(final(utxo_slot)@.utxo)
                &&& final(utxo_slot)@.key == old(utxo_slot)@.key
                &&& final(vault).total_locked == old(vault).total_locked - be_u64(
                    old(utxo_slot).utxo.content_data@,
                )
                &&& final(vault).is_initialized == old(vault).is_initialized
                &&& *final(receiver_balance) == *old(receiver_balance) + be_u64(
                    old(utxo_slot).utxo.content_data@,
                )
            }),
            Err(e) => ({
                &&& withdraw_spec(program_id@, old(utxo_slot)@, witness@) == Err::<
                    UtxoView,
                    UTXOError,
                >(e)
                &&& *final(utxo_slot) == *old(utxo_slot)
                &&& *final(vault) == *old(vault)
                &&& *final(receiver_balance) == *old(receiver_balance)
            }),
        },
{
    if !utxo_slot.utxo.is_initialized {
        return Err(UTXOError::NotInitialized);
    }
    if !check_derived_key(&utxo_slot.utxo.account_seed, program_id, &utxo_slot.key) {
        return Err(UTXOError::WrongSeed);
    }
    let amount = decode_be_u64(utxo_slot.utxo.content_data.as_slice());
    let (signature, reid) = match parse_witness(witness) {
        Ok(p) => p,
        Err(e) => {
            return Err(e);
        },
    };
    let hash = keccak256(utxo_slot.key.as_slice());
    verify_ecdsa_signature(
        hash.as_slice(),
        signature.as_slice(),
        reid,
        utxo_slot.utxo.verification_data.as_slice(),
    )?;
    // Authority over the cell follows from the address re-derivation above.
    process_deactivate(utxo_slot, true)?;
    vault.total_locked = vault.total_locked - amount;
    *receiver_balance = *receiver_balance + amount;
    Ok(())
}

} // verus!
