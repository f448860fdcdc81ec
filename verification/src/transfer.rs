//! The transfer orchestrator: multi-input/multi-output transfers with a
//! zero-sum balance check.
//!
//! Outputs are processed strictly before inputs, so that every output
//! address is known before any input signature is checked: the message each
//! input's witness signs is the Keccak digest of that input's address
//! followed by the full, fixed-order list of output addresses.  A witness is
//! thereby bound to one specific input and one specific output set.  After
//! all outputs are activated and all inputs spent, the transfer demands that
//! the input amounts exactly equal the output amounts.
//!
//! A failed transfer leaves every cell as it was: the checks of the whole
//! batch run before any record is touched, which realizes the all-or-nothing
//! execution the surrounding runtime promises.

use crate::address::{check_derived_key, pda_matches};
use crate::bytes::{append_bytes, be_u64, decode_be_u64};
use crate::ecdsa::{keccak256, keccak_of, parse_witness, signature_valid, verify_ecdsa_signature};
use crate::error::UTXOError;
use crate::state::UtxoAccount;
use vstd::prelude::*;

verus! {

/// The concatenation, in order, of the cell addresses of `outs`.
pub open spec fn keys_concat(outs: Seq<UtxoAccount>) -> Seq<u8>
    decreases outs.len(),
{
    if outs.len() == 0 {
        Seq::empty()
    } else {
        keys_concat(outs.drop_last()) + outs.last().key@
    }
}

/// The checks a transfer applies to one output cell, in order: the record
/// exists, its cell address derives from its seed under the verification
/// module running the transfer, and also under the record's own stored
/// verification module (the store re-derives it when activating).
pub open spec fn output_check(a: UtxoAccount, program_id: Seq<u8>) -> Option<UTXOError> {
    if !a.utxo.is_initialized {
        Some(UTXOError::NotInitialized)
    } else if !pda_matches(a.utxo.account_seed@, program_id, a.key@) {
        Some(UTXOError::WrongSeed)
    } else if !pda_matches(a.utxo.account_seed@, a.utxo.verification_program@, a.key@) {
        Some(UTXOError::WrongSeed)
    } else {
        None
    }
}

/// The checks a transfer applies to one input cell and its witness, in
/// order.  The signed message is the digest of the input's own address
/// followed by `out_keys`, the concatenated addresses of all outputs.
pub open spec fn input_check(
    a: UtxoAccount,
    program_id: Seq<u8>,
    out_keys: Seq<u8>,
    w: Vec<u8>,
) -> Option<UTXOError> {
    if !a.utxo.is_initialized {
        Some(UTXOError::NotInitialized)
    } else if !pda_matches(a.utxo.account_seed@, program_id, a.key@) {
        Some(UTXOError::WrongSeed)
    } else if w@.len() != 65 {
        Some(UTXOError::InvalidWitness)
    } else if !signature_valid(
        keccak_of(a.key@ + out_keys),
        w@.subrange(0, 64),
        w@[64],
        a.utxo.verification_data@,
    ) {
        Some(UTXOError::InvalidWitness)
    } else if !pda_matches(a.utxo.account_seed@, a.utxo.verification_program@, a.key@) {
        Some(UTXOError::WrongSeed)
    } else {
        None
    }
}

/// The outcome of walking the outputs in order: the error of the first
/// failed check, or the sum of all output amounts.
pub open spec fn outputs_result(outs: Seq<UtxoAccount>, program_id: Seq<u8>) -> Result<
    int,
    UTXOError,
>
    decreases outs.len(),
{
    if outs.len() == 0 {
        Ok(0)
    } else {
        match outputs_result(outs.drop_last(), program_id) {
            Err(e) => Err(e),
            Ok(sum) => match output_check(outs.last(), program_id) {
                Some(e) => Err(e),
                None => Ok(sum + be_u64(outs.last().utxo.content_data@)),
            },
        }
    }
}

/// The outcome of walking the inputs in order, each checked against its own
/// witness: the error of the first failed check, or the sum of all input
/// amounts.
pub open spec fn inputs_result(
    ins: Seq<UtxoAccount>,
    program_id: Seq<u8>,
    out_keys: Seq<u8>,
    ws: Seq<Vec<u8>>,
) -> Result<int, UTXOError>
    recommends
        ws.len() == ins.len(),
    decreases ins.len(),
{
    if ins.len() == 0 {
        Ok(0)
    } else {
        match inputs_result(ins.drop_last(), program_id, out_keys, ws.drop_last()) {
            Err(e) => Err(e),
            Ok(sum) => match input_check(ins.last(), program_id, out_keys, ws.last()) {
                Some(e) => Err(e),
                None => Ok(sum + be_u64(ins.last().utxo.content_data@)),
            },
        }
    }
}

/// What a transfer returns: one witness per input, every output and input
/// check passed in order, and the input amounts exactly balancing the
/// output amounts.
pub open spec fn transfer_result(
    program_id: Seq<u8>,
    outs: Seq<UtxoAccount>,
    ins: Seq<UtxoAccount>,
    ws: Seq<Vec<u8>>,
) -> Result<(), UTXOError> {
    if ws.len() != ins.len() {
        Err(UTXOError::InvalidTransferData)
    } else {
        match outputs_result(outs, program_id) {
            Err(e) => Err(e),
            Ok(out_sum) => match inputs_result(ins, program_id, keys_concat(outs), ws) {
                Err(e) => Err(e),
                Ok(in_sum) => if in_sum != out_sum {
                    Err(UTXOError::InvalidTransferData)
                } else {
                    Ok(())
                },
            },
        }
    }
}

/// The binding digest a witness signs: the Keccak-256 digest of the spent
/// cell's address followed by `output_keys`, the concatenated addresses of
/// the outputs in their fixed order.  A withdrawal is the degenerate case
/// with no outputs, so its digest covers the record's own address alone.
pub fn binding_digest(input_key: &[u8; 32], output_keys: &[u8]) -> (r: [u8; 32])
    ensures
        r@ == keccak_of(input_key@ + output_keys@),
{
    let mut message: Vec<u8> = Vec::new();
    append_bytes(&mut message, input_key.as_slice());
    append_bytes(&mut message, output_keys);
    keccak256(message.as_slice())
}

proof fn lemma_outputs_result_stops(outs: Seq<UtxoAccount>, program_id: Seq<u8>, j: int)
    requires
        0 <= j <= outs.len(),
        outputs_result(outs.take(j), program_id) is Err,
    ensures
        outputs_result(outs, program_id) == outputs_result(outs.take(j), program_id),
    decreases outs.len(),
{
    if j == outs.len() {
        assert(outs.take(j) =~= outs);
    } else {
        assert(outs.drop_last().take(j) =~= outs.take(j));
        lemma_outputs_result_stops(outs.drop_last(), program_id, j);
    }
}

proof fn lemma_inputs_result_stops(
    ins: Seq<UtxoAccount>,
    program_id: Seq<u8>,
    out_keys: Seq<u8>,
    ws: Seq<Vec<u8>>,
    j: int,
)
    requires
        0 <= j <= ins.len(),
        ws.len() == ins.len(),
        inputs_result(ins.take(j), program_id, out_keys, ws.take(j)) is Err,
    ensures
        inputs_result(ins, program_id, out_keys, ws) == inputs_result(
            ins.take(j),
            program_id,
            out_keys,
            ws.take(j),
        ),
    decreases ins.len(),
{
    if j == ins.len() {
        assert(ins.take(j) =~= ins);
        assert(ws.take(j) =~= ws);
    } else {
        assert(ins.drop_last().take(j) =~= ins.take(j));
        assert(ws.drop_last().take(j) =~= ws.take(j));
        lemma_inputs_result_stops(ins.drop_last(), program_id, out_keys, ws.drop_last(), j);
    }
}

proof fn lemma_output_step(outs: Seq<UtxoAccount>, program_id: Seq<u8>, i: int, sum: int)
    requires
        0 <= i < outs.len(),
        outputs_result(outs.take(i), program_id) == Ok::<int, UTXOError>(sum),
    ensures
        outputs_result(outs.take(i + 1), program_id) == match output_check(outs[i], program_id) {
            Some(e) => Err::<int, UTXOError>(e),
            None => Ok::<int, UTXOError>(sum + be_u64(outs[i].utxo.content_data@)),
        },
        keys_concat(outs.take(i + 1)) == keys_concat(outs.take(i)) + outs[i].key@,
{
    assert(outs.take(i + 1).drop_last() =~= outs.take(i));
    assert(outs.take(i + 1).last() == outs[i]);
}

proof fn lemma_input_step(
    ins: Seq<UtxoAccount>,
    program_id: Seq<u8>,
    out_keys: Seq<u8>,
    ws: Seq<Vec<u8>>,
    i: int,
    sum: int,
)
    requires
        0 <= i < ins.len(),
        ws.len() == ins.len(),
        inputs_result(ins.take(i), program_id, out_keys, ws.take(i)) == Ok::<int, UTXOError>(sum),
    ensures
        inputs_result(ins.take(i + 1), program_id, out_keys, ws.take(i + 1)) == match input_check(
            ins[i],
            program_id,
            out_keys,
            ws[i],
        ) {
            Some(e) => Err::<int, UTXOError>(e),
            None => Ok::<int, UTXOError>(sum + be_u64(ins[i].utxo.content_data@)),
        },
{
    assert(ins.take(i + 1).drop_last() =~= ins.take(i));
    assert(ws.take(i + 1).drop_last() =~= ws.take(i));
    assert(ins.take(i + 1).last() == ins[i]);
    assert(ws.take(i + 1).last() == ws[i]);
}

/// Drive a transfer: validate the witness count, walk the outputs (collect
/// their addresses and amounts), walk the inputs (verify each witness
/// against the binding digest, collect amounts), demand balance, and only
/// then commit: every output becomes active and every input inactive.  On
/// any failure nothing is changed.
#[verifier::loop_isolation(false)]
pub fn process_transfer(
    program_id: &[u8; 32],
    outputs: &mut Vec<UtxoAccount>,
    inputs: &mut Vec<UtxoAccount>,
    witness: &Vec<Vec<u8>>,
) -> (r: Result<(), UTXOError>)
    requires
        forall|i: int|
            0 <= i < old(outputs)@.len() ==> (#[trigger] old(
                outputs,
            )@[i]).utxo.content_data@.len() == 8,
        forall|i: int|
            0 <= i < old(inputs)@.len() ==> (#[trigger] old(inputs)@[i]).utxo.content_data@.len()
                == 8,
    ensures
        r == transfer_result(program_id@, old(outputs)@, old(inputs)@, witness@),
        r is Ok ==> ({
            &&& final(outputs)@.len() == old(outputs)@.len()
            &&& final(inputs)@.len() == old(inputs)@.len()
            &&& forall|i: int|
                0 <= i < old(outputs)@.len() ==> (#[trigger] final(outputs)@[i])@ == old(
                    outputs,
                )@[i]@.with_active(true)
            &&& forall|i: int|
                0 <= i < old(inputs)@.len() ==> (#[trigger] final(inputs)@[i])@ == old(
                    inputs,
                )@[i]@.with_active(false)
        }),
        r is Err ==> *final(outputs) == *old(outputs) && *final(inputs) == *old(inputs),
{
    if witness.len() != inputs.len() {
        return Err(UTXOError::InvalidTransferData);
    }
    let n_out = outputs.len();
    let n_in = inputs.len();

    let mut out_sum: u128 = 0;
    let mut out_concat: Vec<u8> = Vec::new();
    proof {
        assert(outputs@.take(0) =~= Seq::<UtxoAccount>::empty());
    }
    let mut i: usize = 0;
    while i < n_out
        invariant
            i <= n_out,
            out_concat@ == keys_concat(outputs@.take(i as int)),
            outputs_result(outputs@.take(i as int), program_id@) == Ok::<int, UTXOError>(
                out_sum as int,
            ),
            out_sum <= i * 0xffffffffffffffff,
        decreases n_out - i,
    {
        let o = &outputs[i];
        proof {
            lemma_output_step(outputs@, program_id@, i as int, out_sum as int);
        }
        if !o.utxo.is_initialized {
            proof {
                lemma_outputs_result_stops(outputs@, program_id@, i + 1);
            }
            return Err(UTXOError::NotInitialized);
        }
        if !check_derived_key(&o.utxo.account_seed, program_id, &o.key) {
            proof {
                lemma_outputs_result_stops(outputs@, program_id@, i + 1);
            }
            return Err(UTXOError::WrongSeed);
        }
        let amount = decode_be_u64(o.utxo.content_data.as_slice());
        if !check_derived_key(&o.utxo.account_seed, &o.utxo.verification_program, &o.key) {
            proof {
                lemma_outputs_result_stops(outputs@, program_id@, i + 1);
            }
            return Err(UTXOError::WrongSeed);
        }
        out_sum = out_sum + amount as u128;
        append_bytes(&mut out_concat, o.key.as_slice());
        i += 1;
    }
    proof {
        assert(outputs@.take(n_out as int) =~= outputs@);
    }

    let mut in_sum: u128 = 0;
    proof {
        assert(inputs@.take(0) =~= Seq::<UtxoAccount>::empty());
        assert(witness@.take(0) =~= Seq::<Vec<u8>>::empty());
    }
    let mut i: usize = 0;
    while i < n_in
        invariant
            i <= n_in,
            inputs_result(
                inputs@.take(i as int),
                program_id@,
                keys_concat(outputs@),
                witness@.take(i as int),
            ) == Ok::<int, UTXOError>(in_sum as int),
            in_sum <= i * 0xffffffffffffffff,
        decreases n_in - i,
    {
        let inp = &inputs[i];
        proof {
            lemma_input_step(
                inputs@,
                program_id@,
                keys_concat(outputs@),
                witness@,
                i as int,
                in_sum as int,
            );
        }
        if !inp.utxo.is_initialized {
            proof {
                lemma_inputs_result_stops(
                    inputs@,
                    program_id@,
                    keys_concat(outputs@),
                    witness@,
                    i + 1,
                );
            }
            return Err(UTXOError::NotInitialized);
        }
        if !check_derived_key(&inp.utxo.account_seed, program_id, &inp.key) {
            proof {
                lemma_inputs_result_stops(
                    inputs@,
                    program_id@,
                    keys_concat(outputs@),
                    witness@,
                    i + 1,
                );
            }
            return Err(UTXOError::WrongSeed);
        }
        let amount = decode_be_u64(inp.utxo.content_data.as_slice());
        let (signature, reid) = match parse_witness(&witness[i]) {
            Ok(p) => p,
            Err(e) => {
                proof {
                    lemma_inputs_result_stops(
                        inputs@,
                        program_id@,
                        keys_concat(outputs@),
                        witness@,
                        i + 1,
                    );
                }
                return Err(e);
            },
        };
        let hash = binding_digest(&inp.key, out_concat.as_slice());
        let verdict = verify_ecdsa_signature(
            hash.as_slice(),
            signature.as_slice(),
            reid,
            inp.utxo.verification_data.as_slice(),
        );
        if let Err(e) = verdict {
            proof {
                lemma_inputs_result_stops(
                    inputs@,
                    program_id@,
                    keys_concat(outputs@),
                    witness@,
                    i + 1,
                );
            }
            return Err(e);
        }
        if !check_derived_key(&inp.utxo.account_seed, &inp.utxo.verification_program, &inp.key) {
            proof {
                lemma_inputs_result_stops(
                    inputs@,
                    program_id@,
                    keys_concat(outputs@),
                    witness@,
                    i + 1,
                );
            }
            return Err(UTXOError::WrongSeed);
        }
        in_sum = in_sum + amount as u128;
        i += 1;
    }
    proof {
        assert(inputs@.take(n_in as int) =~= inputs@);
        assert(witness@.take(n_in as int) =~= witness@);
    }

    if in_sum != out_sum {
        return Err(UTXOError::InvalidTransferData);
    }

    // Every check has passed: commit the whole batch.
    let mut i: usize = 0;
    while i < n_out
        invariant
            i <= n_out,
            outputs@.len() == n_out,
            forall|j: int|
                0 <= j < i ==> (#[trigger] outputs@[j])@ == old(outputs)@[j]@.with_active(true),
            forall|j: int| i <= j < n_out ==> (#[trigger] outputs@[j]) == old(outputs)@[j],
        decreases n_out - i,
    {
        outputs[i].utxo.is_active = true;
        i += 1;
    }
    let mut i: usize = 0;
    while i < n_in
        invariant
            i <= n_in,
            inputs@.len() == n_in,
            forall|j: int|
                0 <= j < i ==> (#[trigger] inputs@[j])@ == old(inputs)@[j]@.with_active(false),
            forall|j: int| i <= j < n_in ==> (#[trigger] inputs@[j]) == old(inputs)@[j],
        decreases n_in - i,
    {
        inputs[i].utxo.is_active = false;
        i += 1;
    }
    Ok(())
}

/// Law: a transfer succeeds only on a balanced request.  Success implies
/// one witness per input, every output and input check passed, and the sum
/// of the input amounts exactly equal to the sum of the output amounts.
pub proof fn lemma_transfer_zero_sum(
    program_id: Seq<u8>,
    outs: Seq<UtxoAccount>,
    ins: Seq<UtxoAccount>,
    ws: Seq<Vec<u8>>,
)
    requires
        transfer_result(program_id, outs, ins, ws) is Ok,
    ensures
        ws.len() == ins.len(),
        outputs_result(outs, program_id) is Ok,
        inputs_result(ins, program_id, keys_concat(outs), ws) == outputs_result(outs, program_id),
{
}

proof fn lemma_inputs_result_ok_checks(
    ins: Seq<UtxoAccount>,
    program_id: Seq<u8>,
    out_keys: Seq<u8>,
    ws: Seq<Vec<u8>>,
    i: int,
)
    requires
        inputs_result(ins, program_id, out_keys, ws) is Ok,
        ws.len() == ins.len(),
        0 <= i < ins.len(),
    ensures
        input_check(ins[i], program_id, out_keys, ws[i]) is None,
    decreases ins.len(),
{
    if i < ins.len() - 1 {
        lemma_inputs_result_ok_checks(ins.drop_last(), program_id, out_keys, ws.drop_last(), i);
        assert(ins.drop_last()[i] == ins[i]);
        assert(ws.drop_last()[i] == ws[i]);
    } else {
        assert(ins.last() == ins[i]);
        assert(ws.last() == ws[i]);
    }
}

/// Law (witness binding): when a transfer succeeds, every input's witness
/// verified against the digest of that input's own address followed by the
/// full ordered output address list.  A witness is thus a signature over one
/// specific input and one specific output set, never a free-standing proof.
pub proof fn lemma_transfer_witness_binding(
    program_id: Seq<u8>,
    outs: Seq<UtxoAccount>,
    ins: Seq<UtxoAccount>,
    ws: Seq<Vec<u8>>,
    i: int,
)
    requires
        transfer_result(program_id, outs, ins, ws) is Ok,
        0 <= i < ins.len(),
    ensures
        ws[i]@.len() == 65,
        signature_valid(
            keccak_of(ins[i].key@ + keys_concat(outs)),
            ws[i]@.subrange(0, 64),
            ws[i]@[64],
            ins[i].utxo.verification_data@,
        ),
{
    lemma_inputs_result_ok_checks(ins, program_id, keys_concat(outs), ws, i);
}

} // verus!
