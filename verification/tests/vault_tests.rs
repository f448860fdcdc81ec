use utxo_ledger::address::derive_address;
use utxo_ledger::bytes::encode_be_u64;
use utxo_ledger::ecdsa::{parse_witness, verify_ecdsa_signature};
use utxo_ledger::transfer::binding_digest;
use utxo_ledger::error::UTXOError;
use utxo_ledger::state::{UtxoAccount, VerificationAdmin, UTXO};
use utxo_ledger::vault::{
    admin_seed, process_deposit_sol, process_init_admin, process_withdraw_sol, verify_utxo_data,
};

fn sign_witness(hash: &[u8; 32], sk_bytes: &[u8; 32]) -> (Vec<u8>, Vec<u8>) {
    let sk = libsecp256k1::SecretKey::parse(sk_bytes).unwrap();
    let pk = libsecp256k1::PublicKey::from_secret_key(&sk);
    let pub64 = pk.serialize()[1..65].to_vec();
    let msg = libsecp256k1::Message::parse(hash);
    let (sig, recid) = libsecp256k1::sign(&msg, &sk);
    let mut witness = sig.serialize().to_vec();
    witness.push(recid.serialize());
    (witness, pub64)
}

fn deposit_slot(program_id: &[u8; 32], seed: [u8; 32], vdata: Vec<u8>, amount: u64) -> UtxoAccount {
    let (key, _) = derive_address(&seed, program_id).unwrap();
    UtxoAccount {
        key,
        utxo: UTXO {
            base_program: [3; 32],
            verification_program: *program_id,
            verification_data: vdata,
            content_data: encode_be_u64(amount),
            is_active: false,
            account_seed: seed,
            is_initialized: true,
        },
    }
}

#[test]
fn admin_seed_is_the_fixed_ascii_string() {
    assert_eq!(&admin_seed()[..], b"admin-ecdsa-verification-account");
}

#[test]
fn admin_initializes_once_at_its_derived_address() {
    let program_id = [7u8; 32];
    let (admin_key, _) = derive_address(&admin_seed(), &program_id).unwrap();
    let mut admin = VerificationAdmin { total_locked: 0, is_initialized: false };
    process_init_admin(&program_id, &admin_key, &mut admin).unwrap();
    assert!(admin.is_initialized);
    let again = process_init_admin(&program_id, &admin_key, &mut admin);
    assert_eq!(again, Err(UTXOError::AlreadyInUse));
}

#[test]
fn admin_at_wrong_address_is_rejected() {
    let program_id = [7u8; 32];
    let mut admin = VerificationAdmin { total_locked: 0, is_initialized: false };
    let r = process_init_admin(&program_id, &[42u8; 32], &mut admin);
    assert_eq!(r, Err(UTXOError::WrongAdmin));
    assert!(!admin.is_initialized);
}

#[test]
fn utxo_data_check() {
    assert!(verify_utxo_data(&vec![0; 64], &encode_be_u64(1000), 1000).is_ok());
    assert_eq!(
        verify_utxo_data(&vec![0; 63], &encode_be_u64(1000), 1000),
        Err(UTXOError::InvalidData)
    );
    assert_eq!(
        verify_utxo_data(&vec![0; 64], &encode_be_u64(999), 1000),
        Err(UTXOError::InvalidData)
    );
    assert_eq!(verify_utxo_data(&vec![0; 64], &vec![], 0), Err(UTXOError::InvalidData));
}

#[test]
fn deposit_activates_and_locks_the_amount() {
    let program_id = [7u8; 32];
    let mut slot = deposit_slot(&program_id, [1; 32], vec![0; 64], 1000);
    let mut vault = VerificationAdmin { total_locked: 0, is_initialized: true };
    let mut payer: u64 = 5000;
    process_deposit_sol(&program_id, &mut vault, &mut payer, &mut slot, 1000).unwrap();
    assert!(slot.utxo.is_active);
    assert_eq!(vault.total_locked, 1000);
    assert_eq!(payer, 4000);
}

#[test]
fn deposit_with_mismatched_content_fails_invalid_data() {
    let program_id = [7u8; 32];
    // the record claims 999 but the deposit brings 1000
    let mut slot = deposit_slot(&program_id, [1; 32], vec![0; 64], 999);
    let mut vault = VerificationAdmin { total_locked: 0, is_initialized: true };
    let mut payer: u64 = 5000;
    let r = process_deposit_sol(&program_id, &mut vault, &mut payer, &mut slot, 1000);
    assert_eq!(r, Err(UTXOError::InvalidData));
    assert!(!slot.utxo.is_active);
    assert_eq!(vault.total_locked, 0);
    assert_eq!(payer, 5000);
}

#[test]
fn deposit_with_short_key_fails_invalid_data() {
    let program_id = [7u8; 32];
    let mut slot = deposit_slot(&program_id, [1; 32], vec![0; 63], 1000);
    let mut vault = VerificationAdmin { total_locked: 0, is_initialized: true };
    let mut payer: u64 = 5000;
    let r = process_deposit_sol(&program_id, &mut vault, &mut payer, &mut slot, 1000);
    assert_eq!(r, Err(UTXOError::InvalidData));
}

#[test]
fn withdraw_with_valid_witness_deactivates_and_pays_out() {
    let program_id = [7u8; 32];
    let seed = [2u8; 32];
    let sk = [11u8; 32];
    let (key, _) = derive_address(&seed, &program_id).unwrap();
    let hash = binding_digest(&key, &[]);
    let (witness, pub64) = sign_witness(&hash, &sk);
    let mut slot = deposit_slot(&program_id, seed, pub64, 1500);
    slot.utxo.is_active = true;
    let mut vault = VerificationAdmin { total_locked: 2000, is_initialized: true };
    let mut receiver: u64 = 10;
    process_withdraw_sol(&program_id, &mut vault, &mut receiver, &mut slot, &witness).unwrap();
    assert!(!slot.utxo.is_active);
    assert_eq!(vault.total_locked, 500);
    assert_eq!(receiver, 1510);
}

#[test]
fn withdraw_with_flipped_signature_bit_fails_invalid_witness() {
    let program_id = [7u8; 32];
    let seed = [2u8; 32];
    let sk = [11u8; 32];
    let (key, _) = derive_address(&seed, &program_id).unwrap();
    let hash = binding_digest(&key, &[]);
    let (witness, pub64) = sign_witness(&hash, &sk);
    let mut bad = witness.clone();
    bad[17] ^= 1;
    let mut slot = deposit_slot(&program_id, seed, pub64, 1500);
    slot.utxo.is_active = true;
    let mut vault = VerificationAdmin { total_locked: 2000, is_initialized: true };
    let mut receiver: u64 = 10;
    let r = process_withdraw_sol(&program_id, &mut vault, &mut receiver, &mut slot, &bad);
    assert_eq!(r, Err(UTXOError::InvalidWitness));
    assert!(slot.utxo.is_active);
    assert_eq!(vault.total_locked, 2000);
    assert_eq!(receiver, 10);
}

#[test]
fn withdraw_with_malformed_witness_fails_invalid_witness() {
    let program_id = [7u8; 32];
    let seed = [2u8; 32];
    let (key, _) = derive_address(&seed, &program_id).unwrap();
    let hash = binding_digest(&key, &[]);
    let (witness, pub64) = sign_witness(&hash, &[11u8; 32]);
    let mut short = witness.clone();
    short.pop();
    let mut slot = deposit_slot(&program_id, seed, pub64, 1500);
    slot.utxo.is_active = true;
    let mut vault = VerificationAdmin { total_locked: 2000, is_initialized: true };
    let mut receiver: u64 = 10;
    let r = process_withdraw_sol(&program_id, &mut vault, &mut receiver, &mut slot, &short);
    assert_eq!(r, Err(UTXOError::InvalidWitness));
}

#[test]
fn witness_parser_accepts_exactly_65_bytes() {
    let w: Vec<u8> = (0..65u8).collect();
    let (sig, reid) = parse_witness(&w).unwrap();
    assert_eq!(sig, (0..64u8).collect::<Vec<u8>>());
    assert_eq!(reid, 64);
    assert_eq!(parse_witness(&vec![0; 64]), Err(UTXOError::InvalidWitness));
    assert_eq!(parse_witness(&vec![0; 66]), Err(UTXOError::InvalidWitness));
    assert_eq!(parse_witness(&vec![]), Err(UTXOError::InvalidWitness));
}

#[test]
fn signature_verifier_checks_the_recovered_key() {
    let hash = binding_digest(&[13u8; 32], b"more context");
    let (witness, pub64) = sign_witness(&hash, &[13u8; 32]);
    let (sig, reid) = parse_witness(&witness).unwrap();
    assert!(verify_ecdsa_signature(&hash, &sig, reid, &pub64).is_ok());
    // a different expected key is refused
    let (_, other_key) = sign_witness(&hash, &[14u8; 32]);
    assert_eq!(
        verify_ecdsa_signature(&hash, &sig, reid, &other_key),
        Err(UTXOError::InvalidWitness)
    );
    // an unusable recovery id is refused
    assert_eq!(verify_ecdsa_signature(&hash, &sig, 9, &pub64), Err(UTXOError::InvalidWitness));
}

#[test]
fn digest_matches_the_known_zero_word_vector() {
    // Keccak-256 of 32 zero bytes
    let digest = binding_digest(&[0u8; 32], &[]);
    let expected: [u8; 32] = [
        0x29, 0x0d, 0xec, 0xd9, 0x54, 0x8b, 0x62, 0xa8, 0xd6, 0x03, 0x45, 0xa9, 0x88, 0x38, 0x6f,
        0xc8, 0x4b, 0xa6, 0xbc, 0x95, 0x48, 0x40, 0x08, 0xf6, 0x36, 0x2f, 0x93, 0x16, 0x0e, 0xf3,
        0xe5, 0x63,
    ];
    assert_eq!(digest, expected);
}

#[test]
fn deposit_on_foreign_module_record_fails_wrong_seed() {
    let program_id = [7u8; 32];
    // the cell address is right for this module, but the record names
    // another verification module, so the store refuses to activate it
    let mut slot = deposit_slot(&program_id, [1; 32], vec![0; 64], 1000);
    slot.utxo.verification_program = [8u8; 32];
    let mut vault = VerificationAdmin { total_locked: 0, is_initialized: true };
    let mut payer: u64 = 5000;
    let r = process_deposit_sol(&program_id, &mut vault, &mut payer, &mut slot, 1000);
    assert_eq!(r, Err(UTXOError::WrongSeed));
    assert!(!slot.utxo.is_active);
    assert_eq!(payer, 5000);
}

#[test]
fn deposit_on_uninitialized_record_fails() {
    let program_id = [7u8; 32];
    let mut slot = deposit_slot(&program_id, [1; 32], vec![0; 64], 1000);
    slot.utxo.is_initialized = false;
    let mut vault = VerificationAdmin { total_locked: 0, is_initialized: true };
    let mut payer: u64 = 5000;
    let r = process_deposit_sol(&program_id, &mut vault, &mut payer, &mut slot, 1000);
    assert_eq!(r, Err(UTXOError::NotInitialized));
}

#[test]
fn withdraw_from_wrong_cell_fails_wrong_seed() {
    let program_id = [7u8; 32];
    let seed = [2u8; 32];
    let (key, _) = derive_address(&seed, &program_id).unwrap();
    let hash = binding_digest(&key, &[]);
    let (witness, pub64) = sign_witness(&hash, &[11u8; 32]);
    let mut slot = deposit_slot(&program_id, seed, pub64, 1500);
    slot.key = [42u8; 32];
    slot.utxo.is_active = true;
    let mut vault = VerificationAdmin { total_locked: 2000, is_initialized: true };
    let mut receiver: u64 = 10;
    let r = process_withdraw_sol(&program_id, &mut vault, &mut receiver, &mut slot, &witness);
    assert_eq!(r, Err(UTXOError::WrongSeed));
    assert!(slot.utxo.is_active);
}
