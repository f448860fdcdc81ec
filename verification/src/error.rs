//! The error taxonomy of the ledger.

use vstd::prelude::*;

verus! {

/// Errors that the ledger operations may return.  Every failure is fatal to
/// the enclosing operation; nothing is retried or silently recovered.
#[derive(Clone, Copy, Debug, PartialEq, Eq, Structural)]
pub enum UTXOError {
    /// The slot cannot be initialized because it is already in use.
    AlreadyInUse,
    /// The record has not been initialized.
    NotInitialized,
    /// The supplied storage address disagrees with the derived one.
    WrongSeed,
    /// The required signing authority is absent.
    Unsigned,
    /// The admin slot address disagrees with the derived one.
    WrongAdmin,
    /// Reserved for duplicate-activation detection; never raised today.
    AlreadyActivated,
    /// The record's verification or content data fails the scheme's
    /// self-consistency check.
    InvalidData,
    /// The witness is malformed, or signature recovery failed or recovered
    /// an unexpected key.
    InvalidWitness,
    /// The transfer request is inconsistent: witness count or value balance.
    InvalidTransferData,
}

impl UTXOError {
    /// A short human-readable description of the error.
    pub fn as_str(&self) -> (r: &'static str) {
        match self {
            UTXOError::AlreadyInUse => "Already in use",
            UTXOError::NotInitialized => "Not initialized",
            UTXOError::WrongSeed => "Wrong seed",
            UTXOError::Unsigned => "Unsigned",
            UTXOError::WrongAdmin => "Wrong admin",
            UTXOError::AlreadyActivated => "UTXO already activated",
            UTXOError::InvalidData => "Invalid UTXO data",
            UTXOError::InvalidWitness => "Invalid witness",
            UTXOError::InvalidTransferData => "Invalid transfer data",
        }
    }
}

} // verus!
