//! The typed requests the verification module accepts.
//!
//! A dispatcher decodes an opaque instruction blob into one of these values
//! and routes it to the matching operation, handing over the referenced
//! storage cells as plain record values.

use vstd::prelude::*;

verus! {

/// The arguments of a native-value deposit.
#[derive(Clone, Debug, PartialEq, Eq)]
pub struct DepositSolArgs {
    pub amount: u64,
}

/// The arguments of a native-value withdrawal: the 65-byte witness
/// authorizing the spend.
#[derive(Clone, Debug, PartialEq, Eq)]
pub struct WithdrawSolArgs {
    pub witness: Vec<u8>,
}

/// The arguments of a transfer: one witness per input, and how many of the
/// referenced cells are inputs and outputs.
#[derive(Clone, Debug, PartialEq, Eq)]
pub struct VerifyTransferArgs {
    pub witness: Vec<Vec<u8>>,
    pub input_amount: usize,
    pub output_amount: usize,
}

/// A request to the verification module.
#[derive(Clone, Debug, PartialEq, Eq)]
pub enum Instruction {
    /// Initialize the deployment's vault record.
    InitializeAdmin,
    /// Deposit native value into an initialized record.
    DepositSol(DepositSolArgs),
    /// Withdraw the value a record holds.
    WithdrawSol(WithdrawSolArgs),
    /// Execute a multi-input, multi-output transfer.
    Transfer(VerifyTransferArgs),
}

} // verus!
