//! The UTXO store: the base-module lifecycle operations on a record's
//! storage cell.
//!
//! Only these operations create a record or flip its activation flag.  Each
//! operation re-derives the cell's address from the stored seed and
//! verification-module identity, so a record can never be driven through a
//! cell it does not belong to.  The activation operations additionally
//! demand the cell's own signing authority, passed by the caller as an
//! explicit `caller_authority` proof.

use crate::address::{check_derived_key, pda_matches};
use crate::error::UTXOError;
use crate::state::{UtxoAccount, UtxoAccountView, UtxoView};
use vstd::prelude::*;

verus! {

/// The arguments of a record initialization.
#[derive(Clone, Debug, PartialEq, Eq)]
pub struct InitializeUTXOArgs {
    pub verification_program: [u8; 32],
    pub verification_data: Vec<u8>,
    pub content_data: Vec<u8>,
    pub account_seed: [u8; 32],
}

/// A request to the base module.  Activation and deactivation are meant to
/// be issued only by the verification module that governs the record.
#[derive(Clone, Debug, PartialEq, Eq)]
pub enum Instruction {
    /// Initialize a record in the referenced cell.
    InitializeUTXO(InitializeUTXOArgs),
    /// Mark the referenced record active.
    ActivateUTXO,
    /// Mark the referenced record inactive.
    DeactivateUTXO,
}

/// What initializing a cell does: requires the cell address to equal the
/// address derived from `(account_seed, verification_program)`, refuses a
/// slot that is already initialized, and otherwise stores all fields with
/// the activation flag cleared and the initialization flag set.
pub open spec fn init_utxo_spec(
    program_id: Seq<u8>,
    slot: UtxoAccountView,
    verification_program: Seq<u8>,
    verification_data: Seq<u8>,
    content_data: Seq<u8>,
    account_seed: Seq<u8>,
) -> Result<UtxoView, UTXOError> {
    if !pda_matches(account_seed, verification_program, slot.key) {
        Err(UTXOError::WrongSeed)
    } else if slot.utxo.is_initialized {
        Err(UTXOError::AlreadyInUse)
    } else {
        Ok(
            UtxoView {
                base_program: program_id,
                verification_program: verification_program,
                verification_data: verification_data,
                content_data: content_data,
                is_active: false,
                account_seed: account_seed,
                is_initialized: true,
            },
        )
    }
}

/// What flipping the activation flag to `active` does: the record must be
/// initialized, its cell address must still be the one derived from the
/// stored seed and verification module, and the request must carry the
/// cell's own signing authority.
pub open spec fn set_active_spec(
    slot: UtxoAccountView,
    caller_authority: bool,
    active: bool,
) -> Result<UtxoView, UTXOError> {
    if !slot.utxo.is_initialized {
        Err(UTXOError::NotInitialized)
    } else if !pda_matches(slot.utxo.account_seed, slot.utxo.verification_program, slot.key) {
        Err(UTXOError::WrongSeed)
    } else if !caller_authority {
        Err(UTXOError::Unsigned)
    } else {
        Ok(slot.utxo.with_active(active))
    }
}

/// Initialize the record in `slot`.
pub fn process_init_utxo(
    program_id: &[u8; 32],
    slot: &mut UtxoAccount,
    verification_program: [u8; 32],
    verification_data: Vec<u8>,
    content_data: Vec<u8>,
    account_seed: [u8; 32],
) -> (r: Result<(), UTXOError>)
    ensures
        match r {
            Ok(_) => ({
                &&& init_utxo_spec(
                    program_id@,
                    old(slot)@,
                    verification_program@,
                    verification_data@,
                    content_data@,
                    account_seed@,
                ) == Ok::<UtxoView, UTXOError>(final(slot)@.utxo)
                &&& final(slot)@.key == old(slot)@.key
            }),
            Err(e) => ({
                &&& init_utxo_spec(
                    program_id@,
                    old(slot)@,
                    verification_program@,
                    verification_data@,
                    content_data@,
                    account_seed@,
                ) == Err::<UtxoView, UTXOError>(e)
                &&& *final(slot) == *old(slot)
            }),
        },
{
    if !check_derived_key(&account_seed, &verification_program, &slot.key) {
        return Err(UTXOError::WrongSeed);
    }
    if slot.utxo.is_initialized {
        return Err(UTXOError::AlreadyInUse);
    }
    slot.utxo.content_data = content_data;
    slot.utxo.verification_data = verification_data;
    slot.utxo.verification_program = verification_program;
    slot.utxo.base_program = *program_id;
    slot.utxo.account_seed = account_seed;
    slot.utxo.is_active = false;
    slot.utxo.is_initialized = true;
    Ok(())
}

/// Mark the record in `slot` active.
pub fn process_activate(slot: &mut UtxoAccount, caller_authority: bool) -> (r: Result<
    (),
    UTXOError,
>)
    ensures
        match r {
            Ok(_) => ({
                &&& set_active_spec(old(slot)@, caller_authority, true) == Ok::<
                    UtxoView,
                    UTXOError,
                >(final(slot)@.utxo)
                &&& final(slot)@.key == old(slot)@.key
            }),
            Err(e) => ({
                &&& set_active_spec(old(slot)@, caller_authority, true) == Err::<
                    UtxoView,
                    UTXOError,
                >(e)
                &&& *final(slot) == *old(slot)
            }),
        },
{
    set_active(slot, caller_authority, true)
}

/// Mark the record in `slot` inactive.
pub fn process_deactivate(slot: &mut UtxoAccount, caller_authority: bool) -> (r: Result<
    (),
    UTXOError,
>)
    ensures
        match r {
            Ok(_) => ({
                &&& set_active_spec(old(slot)@, caller_authority, false) == Ok::<
                    UtxoView,
                    UTXOError,
                >(final(slot)@.utxo)
                &&& final(slot)@.key == old(slot)@.key
            }),
            Err(e) => ({
                &&& set_active_spec(old(slot)@, caller_authority, false) == Err::<
                    UtxoView,
                    UTXOError,
                >(e)
                &&& *final(slot) == *old(slot)
            }),
        },
{
    set_active(slot, caller_authority, false)
}

fn set_active(slot: &mut UtxoAccount, caller_authority: bool, active: bool) -> (r: Result<
    (),
    UTXOError,
>)
    ensures
        match r {
            Ok(_) => ({
                &&& set_active_spec(old(slot)@, caller_authority, active) == Ok::<
                    UtxoView,
                    UTXOError,
                >(final(slot)@.utxo)
                &&& final(slot)@.key == old(slot)@.key
            }),
            Err(e) => ({
                &&& set_active_spec(old(slot)@, caller_authority, active) == Err::<
                    UtxoView,
                    UTXOError,
                >(e)
                &&& *final(slot) == *old(slot)
            }),
        },
{
    if !slot.utxo.is_initialized {
        return Err(UTXOError::NotInitialized);
    }
    if !check_derived_key(&slot.utxo.account_seed, &slot.utxo.verification_program, &slot.key) {
        return Err(UTXOError::WrongSeed);
    }
    if !caller_authority {
        return Err(UTXOError::Unsigned);
    }
    slot.utxo.is_active = active;
    Ok(())
}

/// Law: initializing the same `(seed, verification_module)` slot twice fails
/// the second call with `AlreadyInUse`, whatever data the second call
/// carries.
pub proof fn lemma_reinitialize_fails(
    pid1: Seq<u8>,
    pid2: Seq<u8>,
    slot: UtxoAccountView,
    verification_program: Seq<u8>,
    vd1: Seq<u8>,
    cd1: Seq<u8>,
    vd2: Seq<u8>,
    cd2: Seq<u8>,
    account_seed: Seq<u8>,
    stored: UtxoView,
)
    requires
        init_utxo_spec(pid1, slot, verification_program, vd1, cd1, account_seed) == Ok::<
            UtxoView,
            UTXOError,
        >(stored),
    ensures
        init_utxo_spec(
            pid2,
            (UtxoAccountView { utxo: stored, ..slot }),
            verification_program,
            vd2,
            cd2,
            account_seed,
        ) == Err::<UtxoView, UTXOError>(UTXOError::AlreadyInUse),
{
}

/// Law: activating or deactivating a record whose stored seed and
/// verification module no longer derive its cell address fails with
/// `WrongSeed`, whatever authority the caller holds.
pub proof fn lemma_lifecycle_wrong_seed(slot: UtxoAccountView, caller_authority: bool)
    requires
        slot.utxo.is_initialized,
        !pda_matches(slot.utxo.account_seed, slot.utxo.verification_program, slot.key),
    ensures
        set_active_spec(slot, caller_authority, true) == Err::<UtxoView, UTXOError>(
            UTXOError::WrongSeed,
        ),
        set_active_spec(slot, caller_authority, false) == Err::<UtxoView, UTXOError>(
            UTXOError::WrongSeed,
        ),
{
}

} // verus!
