use utxo_ledger::address::{check_derived_key, derive_address};
use utxo_ledger::base::{process_activate, process_deactivate, process_init_utxo};
use utxo_ledger::error::UTXOError;
use utxo_ledger::state::{UtxoAccount, UTXO};

fn empty_utxo() -> UTXO {
    UTXO {
        base_program: [0; 32],
        verification_program: [0; 32],
        verification_data: vec![],
        content_data: vec![],
        is_active: false,
        account_seed: [0; 32],
        is_initialized: false,
    }
}

#[test]
fn derivation_is_deterministic() {
    let seed = [1u8; 32];
    let owner = [7u8; 32];
    let first = derive_address(&seed, &owner).unwrap();
    let second = derive_address(&seed, &owner).unwrap();
    assert_eq!(first, second);
    assert!(check_derived_key(&seed, &owner, &first.0));
}

#[test]
fn different_owners_get_different_addresses() {
    let seed = [1u8; 32];
    let a = derive_address(&seed, &[7u8; 32]).unwrap();
    let b = derive_address(&seed, &[8u8; 32]).unwrap();
    assert_ne!(a.0, b.0);
    assert!(!check_derived_key(&seed, &[8u8; 32], &a.0));
}

#[test]
fn initialize_stores_all_fields() {
    let base_id = [3u8; 32];
    let vprog = [7u8; 32];
    let seed = [1u8; 32];
    let (key, _) = derive_address(&seed, &vprog).unwrap();
    let mut slot = UtxoAccount { key, utxo: empty_utxo() };
    process_init_utxo(&base_id, &mut slot, vprog, vec![1, 2], vec![3], seed).unwrap();
    assert!(slot.utxo.is_initialized);
    assert!(!slot.utxo.is_active);
    assert_eq!(slot.utxo.base_program, base_id);
    assert_eq!(slot.utxo.verification_program, vprog);
    assert_eq!(slot.utxo.verification_data, vec![1, 2]);
    assert_eq!(slot.utxo.content_data, vec![3]);
    assert_eq!(slot.utxo.account_seed, seed);
}

#[test]
fn initialize_twice_fails_already_in_use() {
    let base_id = [3u8; 32];
    let vprog = [7u8; 32];
    let seed = [1u8; 32];
    let (key, _) = derive_address(&seed, &vprog).unwrap();
    let mut slot = UtxoAccount { key, utxo: empty_utxo() };
    process_init_utxo(&base_id, &mut slot, vprog, vec![1, 2], vec![3], seed).unwrap();
    let again = process_init_utxo(&base_id, &mut slot, vprog, vec![9], vec![9], seed);
    assert_eq!(again, Err(UTXOError::AlreadyInUse));
    // the stored record is untouched by the failed call
    assert_eq!(slot.utxo.verification_data, vec![1, 2]);
}

#[test]
fn initialize_wrong_cell_fails_wrong_seed() {
    let base_id = [3u8; 32];
    let vprog = [7u8; 32];
    let seed = [1u8; 32];
    let mut slot = UtxoAccount { key: [42; 32], utxo: empty_utxo() };
    let r = process_init_utxo(&base_id, &mut slot, vprog, vec![], vec![], seed);
    assert_eq!(r, Err(UTXOError::WrongSeed));
    assert!(!slot.utxo.is_initialized);
}

#[test]
fn activate_and_deactivate_flip_the_flag() {
    let base_id = [3u8; 32];
    let vprog = [7u8; 32];
    let seed = [1u8; 32];
    let (key, _) = derive_address(&seed, &vprog).unwrap();
    let mut slot = UtxoAccount { key, utxo: empty_utxo() };
    process_init_utxo(&base_id, &mut slot, vprog, vec![], vec![], seed).unwrap();
    process_activate(&mut slot, true).unwrap();
    assert!(slot.utxo.is_active);
    // re-activation is idempotent, not an error
    process_activate(&mut slot, true).unwrap();
    assert!(slot.utxo.is_active);
    process_deactivate(&mut slot, true).unwrap();
    assert!(!slot.utxo.is_active);
}

#[test]
fn activate_without_authority_fails_unsigned() {
    let base_id = [3u8; 32];
    let vprog = [7u8; 32];
    let seed = [1u8; 32];
    let (key, _) = derive_address(&seed, &vprog).unwrap();
    let mut slot = UtxoAccount { key, utxo: empty_utxo() };
    process_init_utxo(&base_id, &mut slot, vprog, vec![], vec![], seed).unwrap();
    assert_eq!(process_activate(&mut slot, false), Err(UTXOError::Unsigned));
    assert!(!slot.utxo.is_active);
}

#[test]
fn activate_uninitialized_fails() {
    let mut slot = UtxoAccount { key: [42; 32], utxo: empty_utxo() };
    assert_eq!(process_activate(&mut slot, true), Err(UTXOError::NotInitialized));
    assert_eq!(process_deactivate(&mut slot, true), Err(UTXOError::NotInitialized));
}

#[test]
fn lifecycle_on_tampered_record_fails_wrong_seed() {
    let base_id = [3u8; 32];
    let vprog = [7u8; 32];
    let seed = [1u8; 32];
    let (key, _) = derive_address(&seed, &vprog).unwrap();
    let mut slot = UtxoAccount { key, utxo: empty_utxo() };
    process_init_utxo(&base_id, &mut slot, vprog, vec![], vec![], seed).unwrap();
    // the stored seed no longer derives the cell address
    slot.utxo.account_seed = [9u8; 32];
    assert_eq!(process_activate(&mut slot, true), Err(UTXOError::WrongSeed));
    assert_eq!(process_deactivate(&mut slot, true), Err(UTXOError::WrongSeed));
    // the stored verification module no longer derives it either
    slot.utxo.account_seed = seed;
    slot.utxo.verification_program = [9u8; 32];
    assert_eq!(process_activate(&mut slot, true), Err(UTXOError::WrongSeed));
}
